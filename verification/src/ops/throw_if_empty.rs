//! ThrowIfEmpty: errors instead of completing when the source emits
//! nothing.
use crate::notification::{Notification, chunk_ok, emit_one};
use vstd::prelude::*;

verus! {

/// Turns an empty completion into the error `error_fn` builds; otherwise
/// transparent.
pub struct ThrowIfEmpty<S, F> {
    pub source: S,
    pub error_fn: F,
}

/// Observer that tracks whether anything was emitted.
pub struct ThrowIfEmptyObserver<F> {
    pub error_fn: F,
    pub is_empty: bool,
}

impl<S, F> ThrowIfEmpty<S, F> {
    pub fn subscribe(self) -> (r: (S, ThrowIfEmptyObserver<F>))
        ensures
            r.0 == self.source,
            r.1.error_fn == self.error_fn,
            r.1.is_empty,
    {
        (self.source, ThrowIfEmptyObserver { error_fn: self.error_fn, is_empty: true })
    }
}

impl<F> ThrowIfEmptyObserver<F> {
    pub fn next<Item, E>(&mut self, value: Item) -> (out: Vec<Notification<Item, E>>)
        ensures
            out@ == seq![Notification::<Item, E>::Next(value)],
            chunk_ok(true, out@, true),
            !final(self).is_empty,
            final(self).error_fn == old(self).error_fn,
    {
        self.is_empty = false;
        emit_one(Notification::Next(value))
    }

    pub fn error<Item, E>(self, err: E) -> (out: Vec<Notification<Item, E>>)
        ensures
            out@ == seq![Notification::<Item, E>::Error(err)],
            chunk_ok(true, out@, false),
    {
        emit_one(Notification::Error(err))
    }

    /// An empty source errors with `error_fn()`; otherwise completes.
    pub fn complete<Item, E>(self) -> (out: Vec<Notification<Item, E>>)
        where F: FnOnce() -> E
        requires
            self.is_empty ==> self.error_fn.requires(()),
        ensures
            chunk_ok(true, out@, false),
            !self.is_empty ==> out@ == seq![Notification::<Item, E>::Complete],
            self.is_empty ==> out@.len() == 1 && (out@[0] matches Notification::Error(e) && self.error_fn.ensures((), e)),
    {
        if self.is_empty {
            let f = self.error_fn;
            emit_one(Notification::Error(f()))
        } else {
            emit_one(Notification::Complete)
        }
    }

    pub fn is_closed(&self, downstream_closed: bool) -> (b: bool)
        ensures
            b == downstream_closed,
    {
        downstream_closed
    }
}

} // verus!
