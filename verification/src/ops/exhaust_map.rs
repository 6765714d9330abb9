//! ExhaustMap: maps to inner observables but ignores outer items while an
//! inner one is active.
use crate::notification::{Notification, chunk_ok, emit_one};
use vstd::prelude::*;

verus! {

/// Run one inner observable at a time, dropping outer items that arrive
/// while one is active.
pub struct ExhaustMap<S, F> {
    pub source: S,
    pub func: F,
}

/// State shared by the outer and inner observers.
pub struct ExhaustMapState {
    /// The downstream observer is still attached.
    pub observer: bool,
    pub outer_completed: bool,
    /// An inner observable is running.
    pub inner_active: bool,
    /// Its subscription is held (it did not end while subscribing).
    pub inner_sub: bool,
}

impl<S, F> ExhaustMap<S, F> {
    pub fn subscribe(&self) -> (r: (ExhaustMapState, ExhaustMapOuterObserver, ExhaustMapInnerObserver))
        ensures
            r.0 == (ExhaustMapState { observer: true, outer_completed: false, inner_active: false, inner_sub: false }),
    {
        (
            ExhaustMapState { observer: true, outer_completed: false, inner_active: false, inner_sub: false },
            ExhaustMapOuterObserver {},
            ExhaustMapInnerObserver {},
        )
    }
}

impl ExhaustMapState {
    /// Unsubscribing cancels the running inner, if held.
    pub fn unsubscribe(self) -> (cancel_inner: bool)
        ensures
            cancel_inner == self.inner_sub,
    {
        self.inner_sub
    }

    pub fn is_closed(&self) -> (b: bool)
        ensures
            !b,
    {
        false
    }

    /// After subscribing the inner observable: keep its subscription unless it
    /// already completed (or the result ended).
    pub fn keep_inner(&mut self)
        ensures
            *final(self) == if old(self).observer && old(self).inner_active {
                ExhaustMapState { inner_sub: true, ..*old(self) }
            } else {
                *old(self)
            },
    {
        if self.observer && self.inner_active {
            self.inner_sub = true;
        }
    }
}

pub struct ExhaustMapOuterObserver {}

impl ExhaustMapOuterObserver {
    /// Returns whether the item starts an inner observable (built by `func`
    /// from it): only when none is running, the result has not ended and the
    /// downstream is open. Other items are dropped.
    pub fn next(&self, state: &mut ExhaustMapState, downstream_closed: bool) -> (start: bool)
        ensures
            start == (old(state).observer && !old(state).inner_active && !downstream_closed),
            start ==> *final(state) == (ExhaustMapState { inner_active: true, ..*old(state) }),
            !start ==> *final(state) == *old(state),
    {
        if !state.observer || state.inner_active || downstream_closed {
            return false;
        }
        state.inner_active = true;
        true
    }

    /// The error ends the result and cancels the inner.
    pub fn error<Item, E>(self, state: &mut ExhaustMapState, err: E) -> (r: (Vec<Notification<Item, E>>, bool))
        ensures
            chunk_ok(old(state).observer, r.0@, final(state).observer),
            !old(state).observer ==> r.0@.len() == 0 && !r.1 && *final(state) == *old(state),
            old(state).observer ==> {
                &&& r.0@ == seq![Notification::<Item, E>::Error(err)]
                &&& r.1 == old(state).inner_sub
                &&& *final(state) == (ExhaustMapState { observer: false, inner_sub: false, ..*old(state) })
            },
    {
        if !state.observer {
            return (Vec::new(), false);
        }
        state.observer = false;
        let cancel_inner = state.inner_sub;
        state.inner_sub = false;
        (emit_one(Notification::Error(err)), cancel_inner)
    }

    /// The result completes now if no inner runs, else when it completes.
    pub fn complete<Item, E>(self, state: &mut ExhaustMapState) -> (out: Vec<Notification<Item, E>>)
        ensures
            chunk_ok(old(state).observer, out@, final(state).observer),
            !old(state).observer ==> out@.len() == 0 && *final(state) == *old(state),
            old(state).observer && old(state).inner_active ==> out@.len() == 0
                && *final(state) == (ExhaustMapState { outer_completed: true, ..*old(state) }),
            old(state).observer && !old(state).inner_active ==> out@ == seq![Notification::<Item, E>::Complete]
                && *final(state) == (ExhaustMapState { outer_completed: true, observer: false, ..*old(state) }),
    {
        if !state.observer {
            return Vec::new();
        }
        state.outer_completed = true;
        if !state.inner_active {
            state.observer = false;
            emit_one(Notification::Complete)
        } else {
            Vec::new()
        }
    }

    pub fn is_closed(&self, state: &ExhaustMapState, downstream_closed: bool) -> (b: bool)
        ensures
            b == (!state.observer || downstream_closed),
    {
        !state.observer || downstream_closed
    }
}

pub struct ExhaustMapInnerObserver {}

impl ExhaustMapInnerObserver {
    /// Inner items are mirrored.
    pub fn next<Item, E>(&self, state: &ExhaustMapState, value: Item) -> (out: Vec<Notification<Item, E>>)
        ensures
            chunk_ok(state.observer, out@, state.observer),
            out@ == if state.observer { seq![Notification::<Item, E>::Next(value)] } else { Seq::empty() },
    {
        if state.observer {
            emit_one(Notification::Next(value))
        } else {
            Vec::new()
        }
    }

    /// An inner error ends the result.
    pub fn error<Item, E>(self, state: &mut ExhaustMapState, err: E) -> (out: Vec<Notification<Item, E>>)
        ensures
            chunk_ok(old(state).observer, out@, final(state).observer),
            !old(state).observer ==> out@.len() == 0 && *final(state) == *old(state),
            old(state).observer ==> out@ == seq![Notification::<Item, E>::Error(err)]
                && *final(state) == (ExhaustMapState { observer: false, inner_sub: false, ..*old(state) }),
    {
        if !state.observer {
            return Vec::new();
        }
        state.observer = false;
        state.inner_sub = false;
        emit_one(Notification::Error(err))
    }

    /// The inner completed: the next outer item may start another; the result
    /// completes if the source had.
    pub fn complete<Item, E>(self, state: &mut ExhaustMapState) -> (out: Vec<Notification<Item, E>>)
        ensures
            chunk_ok(old(state).observer, out@, final(state).observer),
            !old(state).observer ==> out@.len() == 0 && *final(state) == *old(state),
            old(state).observer && !old(state).outer_completed ==> out@.len() == 0
                && *final(state) == (ExhaustMapState { inner_active: false, inner_sub: false, ..*old(state) }),
            old(state).observer && old(state).outer_completed ==> out@ == seq![Notification::<Item, E>::Complete]
                && *final(state) == (ExhaustMapState { inner_active: false, inner_sub: false, observer: false, ..*old(state) }),
    {
        if !state.observer {
            return Vec::new();
        }
        state.inner_active = false;
        state.inner_sub = false;
        if state.outer_completed {
            state.observer = false;
            emit_one(Notification::Complete)
        } else {
            Vec::new()
        }
    }

    pub fn is_closed(&self, state: &ExhaustMapState, downstream_closed: bool) -> (b: bool)
        ensures
            b == (!state.observer || downstream_closed),
    {
        !state.observer || downstream_closed
    }
}

} // verus!
