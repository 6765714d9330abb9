//! CatchError: recovers from an error by switching to a fallback
//! observable.
use crate::notification::{Notification, chunk_ok, emit_one};
use vstd::prelude::*;

verus! {

/// On error, subscribe to the fallback observable the handler builds from
/// the error; the downstream observer moves to it.
pub struct CatchError<S, F> {
    pub source: S,
    pub handler: F,
}

/// Observer that swaps in the fallback on error.
pub struct CatchErrorObserver {
    /// The downstream observer is still attached to the source.
    pub observer: bool,
}

impl<S, F> CatchError<S, F> {
    pub fn subscribe(&self) -> (o: CatchErrorObserver)
        ensures
            o.observer,
    {
        CatchErrorObserver { observer: true }
    }

    /// After subscribing the source: its handle goes into the serial slot
    /// unless a fallback already took the slot synchronously.
    pub fn keeps_source_subscription(fallback_subscribed: bool) -> (keep: bool)
        ensures
            keep == !fallback_subscribed,
    {
        !fallback_subscribed
    }
}

impl CatchErrorObserver {
    pub fn next<Item, E>(&self, value: Item) -> (out: Vec<Notification<Item, E>>)
        ensures
            chunk_ok(self.observer, out@, self.observer),
            out@ == if self.observer { seq![Notification::<Item, E>::Next(value)] } else { Seq::empty() },
    {
        if self.observer {
            emit_one(Notification::Next(value))
        } else {
            Vec::new()
        }
    }

    /// The error is handed to the handler: the returned error builds the
    /// fallback, which the downstream observer is subscribed to. Nothing is
    /// emitted downstream here.
    pub fn error<E>(self, err: E) -> (handed: Option<E>)
        ensures
            handed == if self.observer { Some(err) } else { None },
    {
        if self.observer {
            Some(err)
        } else {
            None
        }
    }

    pub fn complete<Item, E>(self) -> (out: Vec<Notification<Item, E>>)
        ensures
            chunk_ok(self.observer, out@, false),
            out@ == if self.observer { seq![Notification::<Item, E>::Complete] } else { Seq::empty() },
    {
        if self.observer {
            emit_one(Notification::Complete)
        } else {
            Vec::new()
        }
    }

    pub fn is_closed(&self, downstream_closed: bool) -> (b: bool)
        ensures
            b == (!self.observer || downstream_closed),
    {
        !self.observer || downstream_closed
    }
}

} // verus!
