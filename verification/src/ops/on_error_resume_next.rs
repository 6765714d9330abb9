//! OnErrorResumeNext: continues with another observable when the source
//! errors or completes.
use crate::notification::{Notification, chunk_ok, emit_one};
use vstd::prelude::*;

verus! {

/// When the source errors (the error is discarded) or completes, `next` is
/// subscribed and mirrored.
pub struct OnErrorResumeNext<S, N> {
    pub source: S,
    pub next: N,
}

/// Observer that switches to `next` on any terminal event.
#[derive(Clone, Copy)]
pub struct OnErrorResumeNextObserver {
    /// The downstream observer is still attached to the source.
    pub observer: bool,
    /// `next` has not been subscribed yet.
    pub next: bool,
}

impl<S, N> OnErrorResumeNext<S, N> {
    pub fn subscribe(&self) -> (o: OnErrorResumeNextObserver)
        ensures
            o.observer && o.next,
    {
        OnErrorResumeNextObserver { observer: true, next: true }
    }

    /// After subscribing the source: its handle goes into the serial slot
    /// unless `next` already took the slot synchronously.
    pub fn keeps_source_subscription(resumed: bool) -> (keep: bool)
        ensures
            keep == !resumed,
    {
        !resumed
    }
}

impl OnErrorResumeNextObserver {
    /// Whether to subscribe `next` with the downstream observer now.
    pub fn resume(self) -> (subscribe_next: bool)
        ensures
            subscribe_next == (self.observer && self.next),
    {
        self.observer && self.next
    }

    pub fn next<Item, E>(&self, value: Item) -> (out: Vec<Notification<Item, E>>)
        ensures
            chunk_ok(self.observer, out@, self.observer),
            out@ == if self.observer { seq![Notification::<Item, E>::Next(value)] } else { Seq::empty() },
    {
        if self.observer {
            emit_one(Notification::Next(value))
        } else {
            Vec::new()
        }
    }

    /// The error is discarded and `next` takes over.
    pub fn error<E>(self, err: E) -> (subscribe_next: bool)
        ensures
            subscribe_next == (self.observer && self.next),
    {
        self.resume()
    }

    /// The completion is swallowed and `next` takes over.
    pub fn complete(self) -> (subscribe_next: bool)
        ensures
            subscribe_next == (self.observer && self.next),
    {
        self.resume()
    }

    pub fn is_closed(&self, downstream_closed: bool) -> (b: bool)
        ensures
            b == (!self.observer || downstream_closed),
    {
        !self.observer || downstream_closed
    }
}

} // verus!
