//! IgnoreElements: drops every item and forwards only the terminal
//! notification.
use crate::notification::{Notification, chunk_ok, emit_one};
use vstd::prelude::*;

verus! {

pub struct IgnoreElements<S> {
    pub source: S,
}

/// Observer that discards items.
pub struct IgnoreElementsObserver {}

impl<S> IgnoreElements<S> {
    pub fn subscribe(self) -> (r: (S, IgnoreElementsObserver))
        ensures
            r.0 == self.source,
    {
        (self.source, IgnoreElementsObserver {})
    }
}

impl IgnoreElementsObserver {
    pub fn next<Item, E>(&self, value: Item) -> (out: Vec<Notification<Item, E>>)
        ensures
            out@.len() == 0,
    {
        Vec::new()
    }

    pub fn error<Item, E>(self, err: E) -> (out: Vec<Notification<Item, E>>)
        ensures
            out@ == seq![Notification::<Item, E>::Error(err)],
            chunk_ok(true, out@, false),
    {
        emit_one(Notification::Error(err))
    }

    pub fn complete<Item, E>(self) -> (out: Vec<Notification<Item, E>>)
        ensures
            out@ == seq![Notification::<Item, E>::Complete],
            chunk_ok(true, out@, false),
    {
        emit_one(Notification::Complete)
    }

    pub fn is_closed(&self, downstream_closed: bool) -> (b: bool)
        ensures
            b == downstream_closed,
    {
        downstream_closed
    }
}

} // verus!
