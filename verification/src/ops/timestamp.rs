//! Timestamp: attaches the instant of emission to each item.
use std::time::Instant;
use crate::clock::instant_now;
use crate::notification::{Notification, chunk_ok, emit_one};
use vstd::prelude::*;

verus! {

/// An item together with the instant it was emitted.
#[derive(Debug, Clone, Copy, PartialEq, Eq)]
pub struct Timestamped<T> {
    /// The emitted value
    pub value: T,
    /// When the value passed through the `timestamp` operator
    pub timestamp: Instant,
}

/// Wraps each item in a [`Timestamped`].
pub struct Timestamp<S> {
    pub source: S,
}

/// Observer that stamps each item.
pub struct TimestampObserver {}

impl<S> Timestamp<S> {
    pub fn subscribe(self) -> (r: (S, TimestampObserver))
        ensures
            r.0 == self.source,
    {
        (self.source, TimestampObserver {})
    }
}

impl TimestampObserver {
    /// The item with the clock reading taken now.
    pub fn next<Item, E>(&self, value: Item) -> (out: Vec<Notification<Timestamped<Item>, E>>)
        ensures
            chunk_ok(true, out@, true),
            out@.len() == 1,
            out@[0] matches Notification::Next(t) && t.value == value,
    {
        emit_one(Notification::Next(Timestamped { value, timestamp: instant_now() }))
    }

    pub fn error<Item, E>(self, err: E) -> (out: Vec<Notification<Timestamped<Item>, E>>)
        ensures
            out@ == seq![Notification::<Timestamped<Item>, E>::Error(err)],
            chunk_ok(true, out@, false),
    {
        emit_one(Notification::Error(err))
    }

    pub fn complete<Item, E>(self) -> (out: Vec<Notification<Timestamped<Item>, E>>)
        ensures
            out@ == seq![Notification::<Timestamped<Item>, E>::Complete],
            chunk_ok(true, out@, false),
    {
        emit_one(Notification::Complete)
    }

    pub fn is_closed(&self, downstream_closed: bool) -> (b: bool)
        ensures
            b == downstream_closed,
    {
        downstream_closed
    }
}

} // verus!
