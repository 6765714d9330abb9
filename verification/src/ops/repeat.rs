//! Repeat: resubscribes to the source when it completes.
use crate::notification::{Notification, chunk_ok, emit_one};
use vstd::prelude::*;

verus! {

/// Resubscribe to the source on completion.
///
/// `count` is the total number of subscriptions (`Some(0)` completes
/// immediately, `Some(1)` is transparent); `None` repeats until
/// unsubscribed. Each resubscription happens on the scheduler's next tick.
pub struct Repeat<S> {
    pub source: S,
    pub count: Option<usize>,
}

/// Observer of one subscription of the source.
#[derive(Clone, Copy)]
pub struct RepeatObserver {
    /// Subscriptions left, this one included; `None` repeats forever.
    pub remaining: Option<usize>,
}

/// What a completion of the source leads to.
pub enum RepeatStep {
    /// The result completes.
    Complete,
    /// On the next tick, resubscribe the source with this observer.
    Resubscribe(RepeatObserver),
}

/// Whether another subscription follows, and how many remain after it.
pub open spec fn again_spec(remaining: Option<usize>) -> Option<Option<usize>> {
    match remaining {
        None => Some(None),
        Some(n) => if n > 1 { Some(Some((n - 1) as usize)) } else { None },
    }
}

impl<S> Repeat<S> {
    /// Starts the repetition: `Some(0)` completes at once (`Err`), otherwise
    /// the first subscription's observer. The serial slot holds the current
    /// subscription once the source is subscribed.
    pub fn subscribe<Item, E>(&self) -> (r: Result<RepeatObserver, Vec<Notification<Item, E>>>)
        ensures
            self.count == Some(0usize) ==> (r matches Err(out) && out@ == seq![Notification::<Item, E>::Complete]),
            self.count != Some(0usize) ==> r == Ok::<RepeatObserver, Vec<Notification<Item, E>>>(RepeatObserver { remaining: self.count }),
    {
        match self.count {
            Some(0) => Err(emit_one(Notification::Complete)),
            _ => Ok(RepeatObserver { remaining: self.count }),
        }
    }
}

impl RepeatObserver {
    /// Items pass through.
    pub fn next<Item>(&self, value: Item) -> (forwarded: Item)
        ensures
            forwarded == value,
    {
        value
    }

    /// The error ends the result: no resubscription.
    pub fn error<Item, E>(self, err: E) -> (out: Vec<Notification<Item, E>>)
        ensures
            out@ == seq![Notification::<Item, E>::Error(err)],
            chunk_ok(true, out@, false),
    {
        emit_one(Notification::Error(err))
    }

    /// Completes the result after the last subscription or when the
    /// downstream closed itself; otherwise schedules the next subscription.
    pub fn complete(self, downstream_closed: bool) -> (step: RepeatStep)
        ensures
            again_spec(self.remaining) is None || downstream_closed ==> step is Complete,
            again_spec(self.remaining) is Some && !downstream_closed
                ==> step == RepeatStep::Resubscribe(RepeatObserver { remaining: again_spec(self.remaining)->0 }),
    {
        let again = match self.remaining {
            None => Some(None),
            Some(n) => if n > 1 { Some(Some(n - 1)) } else { None },
        };
        match again {
            Some(rest) => if downstream_closed {
                RepeatStep::Complete
            } else {
                RepeatStep::Resubscribe(RepeatObserver { remaining: rest })
            },
            None => RepeatStep::Complete,
        }
    }

    /// The scheduled resubscription: it happens only while the serial slot
    /// still holds a subscription (the downstream did not unsubscribe while
    /// the tick was pending); the previous subscription is then cancelled and
    /// replaced by the new one.
    pub fn subscribe_impl(self, serial: &mut bool) -> (resubscribe: Option<RepeatObserver>)
        ensures
            *final(serial) == *old(serial),
            resubscribe == if *old(serial) { Some(self) } else { None },
    {
        if *serial {
            Some(self)
        } else {
            None
        }
    }

    pub fn is_closed(&self, downstream_closed: bool) -> (b: bool)
        ensures
            b == downstream_closed,
    {
        downstream_closed
    }
}

/// The number of subscriptions `repeat(count)` makes when every one
/// completes and the downstream stays open.
pub open spec fn total_subscriptions(remaining: usize) -> nat
    decreases remaining,
{
    match again_spec(Some(remaining)) {
        Some(Some(rest)) => 1 + total_subscriptions(rest),
        _ => 1,
    }
}

/// `repeat(n)` subscribes the source exactly `n` times (at least once), when
/// each subscription completes and the downstream stays open.
pub proof fn lemma_repeat_subscribes_count_times(n: usize)
    requires
        n >= 1,
    ensures
        total_subscriptions(n) == n,
    decreases n,
{
    if n > 1 {
        lemma_repeat_subscribes_count_times((n - 1) as usize);
    }
}

} // verus!
