//! IsEmpty: emits `true` if the source completes without emitting, `false`
//! on the first item.
use crate::notification::{Notification, chunk_ok, emit_last, emit_one};
use vstd::prelude::*;

verus! {

pub struct IsEmpty<S> {
    pub source: S,
}

/// Observer that reports emptiness and short-circuits on the first item.
pub struct IsEmptyObserver {
    /// The downstream observer is still attached.
    pub observer: bool,
}

impl<S> IsEmpty<S> {
    pub fn subscribe(&self) -> (o: IsEmptyObserver)
        ensures
            o.observer,
    {
        IsEmptyObserver { observer: true }
    }
}

impl IsEmptyObserver {
    /// The first item answers `false`.
    pub fn next<Item, E>(&mut self, value: Item) -> (out: Vec<Notification<bool, E>>)
        ensures
            chunk_ok(old(self).observer, out@, final(self).observer),
            !final(self).observer,
            out@ == if old(self).observer { seq![Notification::<bool, E>::Next(false), Notification::Complete] } else { Seq::empty() },
    {
        if self.observer {
            self.observer = false;
            emit_last(false)
        } else {
            Vec::new()
        }
    }

    pub fn error<E>(self, err: E) -> (out: Vec<Notification<bool, E>>)
        ensures
            chunk_ok(self.observer, out@, false),
            out@ == if self.observer { seq![Notification::<bool, E>::Error(err)] } else { Seq::empty() },
    {
        if self.observer {
            emit_one(Notification::Error(err))
        } else {
            Vec::new()
        }
    }

    /// Completion without items answers `true`.
    pub fn complete<E>(self) -> (out: Vec<Notification<bool, E>>)
        ensures
            chunk_ok(self.observer, out@, false),
            out@ == if self.observer { seq![Notification::<bool, E>::Next(true), Notification::Complete] } else { Seq::empty() },
    {
        if self.observer {
            emit_last(true)
        } else {
            Vec::new()
        }
    }

    pub fn is_closed(&self, downstream_closed: bool) -> (b: bool)
        ensures
            b == (!self.observer || downstream_closed),
    {
        !self.observer || downstream_closed
    }
}

} // verus!
