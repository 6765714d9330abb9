//! TimeInterval: attaches the time elapsed since the previous emission to
//! each item.
use std::time::{Duration, Instant};
use crate::clock::{duration_between, duration_since, instant_now};
use crate::notification::{Notification, chunk_ok, emit_one};
use vstd::prelude::*;

verus! {

/// An item together with the time elapsed since the previous item, or since
/// subscription for the first item.
#[derive(Debug, Clone, Copy, PartialEq, Eq)]
pub struct Elapsed<T> {
    /// The emitted value
    pub value: T,
    /// Time since the previous emission (or subscription)
    pub interval: Duration,
}

/// Wraps each item in an [`Elapsed`].
pub struct TimeInterval<S> {
    pub source: S,
}

/// Observer that measures the gap between emissions.
pub struct TimeIntervalObserver {
    /// When the previous item (or the subscription) happened.
    pub last: Instant,
}

impl<S> TimeInterval<S> {
    /// Starts measuring from the subscription.
    pub fn subscribe(self) -> (r: (S, TimeIntervalObserver))
        ensures
            r.0 == self.source,
    {
        (self.source, TimeIntervalObserver { last: instant_now() })
    }
}

impl TimeIntervalObserver {
    /// The item with the time since the previous one, measured at `now`,
    /// which becomes the new reference point.
    pub fn next_at<Item, E>(&mut self, value: Item, now: Instant) -> (out: Vec<Notification<Elapsed<Item>, E>>)
        ensures
            chunk_ok(true, out@, true),
            final(self).last == now,
            out@.len() == 1,
            out@[0] matches Notification::Next(e) && e.value == value
                && e.interval == duration_between(now, old(self).last),
    {
        let interval = duration_since(now, self.last);
        self.last = now;
        emit_one(Notification::Next(Elapsed { value, interval }))
    }

    /// The item with the time since the previous one, measured now.
    pub fn next<Item, E>(&mut self, value: Item) -> (out: Vec<Notification<Elapsed<Item>, E>>)
        ensures
            chunk_ok(true, out@, true),
            out@.len() == 1,
            out@[0] matches Notification::Next(e) && e.value == value
                && e.interval == duration_between(final(self).last, old(self).last),
    {
        let now = instant_now();
        self.next_at(value, now)
    }

    pub fn error<Item, E>(self, err: E) -> (out: Vec<Notification<Elapsed<Item>, E>>)
        ensures
            out@ == seq![Notification::<Elapsed<Item>, E>::Error(err)],
            chunk_ok(true, out@, false),
    {
        emit_one(Notification::Error(err))
    }

    pub fn complete<Item, E>(self) -> (out: Vec<Notification<Elapsed<Item>, E>>)
        ensures
            out@ == seq![Notification::<Elapsed<Item>, E>::Complete],
            chunk_ok(true, out@, false),
    {
        emit_one(Notification::Complete)
    }

    pub fn is_closed(&self, downstream_closed: bool) -> (b: bool)
        ensures
            b == downstream_closed,
    {
        downstream_closed
    }
}

} // verus!
