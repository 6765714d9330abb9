//! The system clock, which the time-stamping operators read.
use std::time::{Duration, Instant};
use vstd::prelude::*;

verus! {

/// `std::time::Instant`, a reading of a monotonic clock. Verus sees nothing
/// inside it.
#[verifier::external_type_specification]
#[verifier::external_body]
pub struct ExInstant(Instant);

/// `Instant` is `Copy`: its `clone` returns the same reading.
pub assume_specification[ <Instant as Clone>::clone ](i: &Instant) -> (r: Instant)
    ensures
        r == *i,
;

/// `Duration` is `Copy`: its `clone` returns the same length of time.
pub assume_specification[ <Duration as Clone>::clone ](d: &Duration) -> (r: Duration)
    ensures
        r == *d,
;

/// Calls `Instant::now()`. Nothing is stated of the result: it is the
/// current time.
#[verifier::external_body]
pub fn instant_now() -> Instant {
    Instant::now()
}

/// The time from `earlier` to `later`, as `Instant::duration_since`
/// computes it from the two readings alone (zero when `earlier` is the
/// later one).
pub uninterp spec fn duration_between(later: Instant, earlier: Instant) -> Duration;

/// Calls `later.duration_since(earlier)`. The contract claims that the
/// result depends on the two readings alone and names it
/// [`duration_between`]; what that length is, is not stated, since an
/// `Instant` is opaque to Verus.
#[verifier::external_body]
pub fn duration_since(later: Instant, earlier: Instant) -> (d: Duration)
    ensures
        d == duration_between(later, earlier),
{
    later.duration_since(earlier)
}

} // verus!
