//! Verified state machines of reactive-stream operators.
use vstd::prelude::*;

pub mod notification;
pub mod subscriptions;
pub mod slots;
pub mod ops;
pub mod observable;
pub mod from_signal;
pub mod clock;

verus! {

} // verus!
