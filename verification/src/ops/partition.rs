//! Partition: one half of a split of a source into the items that satisfy a
//! predicate and the rest.
use crate::notification::{Notification, chunk_ok, emit_one};
use vstd::prelude::*;

verus! {

/// Forwards items whose predicate result equals `keep`. A partition builds
/// two of these over the same source: one with `keep = true`, one with
/// `keep = false`; each subscribes to the source on its own.
pub struct Partition<S, F> {
    pub source: S,
    pub predicate: F,
    pub keep: bool,
}

/// Observer that keeps items matching the wanted predicate result.
pub struct PartitionObserver {
    pub keep: bool,
}

impl<S, F> Partition<S, F> {
    pub fn subscribe(&self) -> (o: PartitionObserver)
        ensures
            o.keep == self.keep,
    {
        PartitionObserver { keep: self.keep }
    }
}

impl PartitionObserver {
    /// `verdict` is the predicate's result on the item.
    pub fn next<Item, E>(&self, value: Item, verdict: bool) -> (out: Vec<Notification<Item, E>>)
        ensures
            chunk_ok(true, out@, true),
            out@ == if verdict == self.keep { seq![Notification::<Item, E>::Next(value)] } else { Seq::empty() },
    {
        if verdict == self.keep {
            emit_one(Notification::Next(value))
        } else {
            Vec::new()
        }
    }

    pub fn error<Item, E>(self, err: E) -> (out: Vec<Notification<Item, E>>)
        ensures
            out@ == seq![Notification::<Item, E>::Error(err)],
            chunk_ok(true, out@, false),
    {
        emit_one(Notification::Error(err))
    }

    pub fn complete<Item, E>(self) -> (out: Vec<Notification<Item, E>>)
        ensures
            out@ == seq![Notification::<Item, E>::Complete],
            chunk_ok(true, out@, false),
    {
        emit_one(Notification::Complete)
    }

    pub fn is_closed(&self, downstream_closed: bool) -> (b: bool)
        ensures
            b == downstream_closed,
    {
        downstream_closed
    }
}

} // verus!
