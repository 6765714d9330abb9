//! EndWith: emits specified items after the source completes.
use crate::notification::{Notification, chunk_ok, deliver_then_complete, deliver_then_complete_spec, emit_one};
use vstd::prelude::*;

verus! {

/// Appends values after the source completes. They are not emitted if the
/// source errors.
pub struct EndWith<S, Item> {
    pub source: S,
    pub values: Vec<Item>,
}

/// Observer that flushes the trailing values on completion.
pub struct EndWithObserver<Item> {
    pub values: Vec<Item>,
}

impl<S, Item> EndWith<S, Item> {
    /// Wires the observer holding the trailing values to the source.
    pub fn subscribe(self) -> (r: (S, EndWithObserver<Item>))
        ensures
            r.0 == self.source,
            r.1.values == self.values,
    {
        (self.source, EndWithObserver { values: self.values })
    }
}

impl<Item> EndWithObserver<Item> {
    pub fn next<E>(&self, value: Item) -> (out: Vec<Notification<Item, E>>)
        ensures
            out@ == seq![Notification::<Item, E>::Next(value)],
            chunk_ok(true, out@, true),
    {
        emit_one(Notification::Next(value))
    }

    pub fn error<E>(self, err: E) -> (out: Vec<Notification<Item, E>>)
        ensures
            out@ == seq![Notification::<Item, E>::Error(err)],
            chunk_ok(true, out@, false),
    {
        emit_one(Notification::Error(err))
    }

    /// Emits the trailing values while the downstream stays open
    /// (`capacity`: how many more items it accepts), then completes.
    pub fn complete<E>(self, capacity: Option<usize>) -> (out: Vec<Notification<Item, E>>)
        ensures
            out@ == deliver_then_complete_spec::<Item, E>(self.values@, capacity),
            chunk_ok(true, out@, false),
    {
        deliver_then_complete(self.values, capacity)
    }

    pub fn is_closed(&self, downstream_closed: bool) -> (b: bool)
        ensures
            b == downstream_closed,
    {
        downstream_closed
    }
}

} // verus!
