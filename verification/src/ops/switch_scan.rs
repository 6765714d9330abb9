//! SwitchScan: like `scan`, but the accumulator returns an observable. Each
//! source item unsubscribes the previous inner observable and subscribes the
//! new one; every inner emission becomes the accumulator and is emitted.
use crate::notification::{Notification, chunk_ok, emit_one};
use vstd::prelude::*;

verus! {

pub struct SwitchScan<S, F, Acc> {
    pub source: S,
    pub func: F,
    pub seed: Acc,
}

/// State shared by the outer and inner observers.
pub struct SwitchScanState<Acc> {
    /// The downstream observer is still attached.
    pub observer: bool,
    /// The current accumulator.
    pub acc: Acc,
    pub outer_completed: bool,
    /// An inner observable is running.
    pub inner_active: bool,
    /// Its subscription is held (it did not end while subscribing).
    pub inner_sub: bool,
}

impl<S, F, Acc: Clone> SwitchScan<S, F, Acc> {
    /// Starts the operator with the seed as accumulator.
    pub fn subscribe(&self) -> (r: (SwitchScanState<Acc>, SwitchScanOuterObserver, SwitchScanInnerObserver))
        ensures
            r.0 == (SwitchScanState { observer: true, acc: r.0.acc, outer_completed: false, inner_active: false, inner_sub: false }),
            vstd::pervasive::cloned(self.seed, r.0.acc),
    {
        (
            SwitchScanState {
                observer: true,
                acc: self.seed.clone(),
                outer_completed: false,
                inner_active: false,
                inner_sub: false,
            },
            SwitchScanOuterObserver {},
            SwitchScanInnerObserver {},
        )
    }
}

impl<Acc> SwitchScanState<Acc> {
    /// Unsubscribing cancels the running inner, if held.
    pub fn unsubscribe(self) -> (cancel_inner: bool)
        ensures
            cancel_inner == self.inner_sub,
    {
        self.inner_sub
    }

    pub fn is_closed(&self) -> (b: bool)
        ensures
            !b,
    {
        false
    }

    /// After subscribing the inner observable: keep its subscription unless it
    /// already completed (or the result ended).
    pub fn keep_inner(&mut self)
        ensures
            *final(self) == if old(self).observer && old(self).inner_active {
                SwitchScanState { inner_sub: true, ..*old(self) }
            } else {
                *old(self)
            },
    {
        if self.observer && self.inner_active {
            self.inner_sub = true;
        }
    }
}

/// What a source item asks for.
pub struct SwitchStart<Acc> {
    /// The previous inner's subscription must be cancelled.
    pub cancel_previous: bool,
    /// The accumulator to hand to `func` with the item.
    pub acc: Acc,
}

pub struct SwitchScanOuterObserver {}

impl SwitchScanOuterObserver {
    /// A source item switches to a new inner observable, built by `func`
    /// from the current accumulator and the item. Ignored once the result
    /// ended or the downstream closed itself.
    pub fn next<Acc: Clone>(&self, state: &mut SwitchScanState<Acc>, downstream_closed: bool) -> (r: Option<SwitchStart<Acc>>)
        ensures
            !old(state).observer || downstream_closed ==> r is None && *final(state) == *old(state),
            old(state).observer && !downstream_closed ==> {
                &&& r matches Some(start) && start.cancel_previous == old(state).inner_sub
                    && vstd::pervasive::cloned(old(state).acc, start.acc)
                &&& *final(state) == (SwitchScanState { inner_active: true, inner_sub: false, ..*old(state) })
            },
    {
        if !state.observer || downstream_closed {
            return None;
        }
        state.inner_active = true;
        let cancel_previous = state.inner_sub;
        state.inner_sub = false;
        Some(SwitchStart { cancel_previous, acc: state.acc.clone() })
    }

    /// The error ends the result and cancels the inner.
    pub fn error<Acc, E>(self, state: &mut SwitchScanState<Acc>, err: E) -> (r: (Vec<Notification<Acc, E>>, bool))
        ensures
            chunk_ok(old(state).observer, r.0@, final(state).observer),
            !old(state).observer ==> r.0@.len() == 0 && !r.1 && *final(state) == *old(state),
            old(state).observer ==> {
                &&& r.0@ == seq![Notification::<Acc, E>::Error(err)]
                &&& r.1 == old(state).inner_sub
                &&& *final(state) == (SwitchScanState { observer: false, inner_sub: false, ..*old(state) })
            },
    {
        if !state.observer {
            return (Vec::new(), false);
        }
        state.observer = false;
        let cancel_inner = state.inner_sub;
        state.inner_sub = false;
        (emit_one(Notification::Error(err)), cancel_inner)
    }

    /// The result completes now if no inner runs, else when it completes.
    pub fn complete<Acc, E>(self, state: &mut SwitchScanState<Acc>) -> (out: Vec<Notification<Acc, E>>)
        ensures
            chunk_ok(old(state).observer, out@, final(state).observer),
            !old(state).observer ==> out@.len() == 0 && *final(state) == *old(state),
            old(state).observer && old(state).inner_active ==> out@.len() == 0
                && *final(state) == (SwitchScanState { outer_completed: true, ..*old(state) }),
            old(state).observer && !old(state).inner_active ==> out@ == seq![Notification::<Acc, E>::Complete]
                && *final(state) == (SwitchScanState { outer_completed: true, observer: false, ..*old(state) }),
    {
        if !state.observer {
            return Vec::new();
        }
        state.outer_completed = true;
        if !state.inner_active {
            state.observer = false;
            emit_one(Notification::Complete)
        } else {
            Vec::new()
        }
    }

    pub fn is_closed<Acc>(&self, state: &SwitchScanState<Acc>, downstream_closed: bool) -> (b: bool)
        ensures
            b == (!state.observer || downstream_closed),
    {
        !state.observer || downstream_closed
    }
}

pub struct SwitchScanInnerObserver {}

impl SwitchScanInnerObserver {
    /// An inner emission becomes the accumulator and is emitted.
    pub fn next<Acc: Clone, E>(&self, state: &mut SwitchScanState<Acc>, value: Acc) -> (out: Vec<Notification<Acc, E>>)
        ensures
            chunk_ok(old(state).observer, out@, final(state).observer),
            !old(state).observer ==> out@.len() == 0 && *final(state) == *old(state),
            old(state).observer ==> out@ == seq![Notification::<Acc, E>::Next(value)]
                && *final(state) == (SwitchScanState { acc: final(state).acc, ..*old(state) })
                && vstd::pervasive::cloned(value, final(state).acc),
    {
        if !state.observer {
            return Vec::new();
        }
        state.acc = value.clone();
        emit_one(Notification::Next(value))
    }

    /// An inner error ends the result.
    pub fn error<Acc, E>(self, state: &mut SwitchScanState<Acc>, err: E) -> (out: Vec<Notification<Acc, E>>)
        ensures
            chunk_ok(old(state).observer, out@, final(state).observer),
            !old(state).observer ==> out@.len() == 0 && *final(state) == *old(state),
            old(state).observer ==> out@ == seq![Notification::<Acc, E>::Error(err)]
                && *final(state) == (SwitchScanState { observer: false, inner_sub: false, ..*old(state) }),
    {
        if !state.observer {
            return Vec::new();
        }
        state.observer = false;
        state.inner_sub = false;
        emit_one(Notification::Error(err))
    }

    /// The inner completed: the result completes if the source had.
    pub fn complete<Acc, E>(self, state: &mut SwitchScanState<Acc>) -> (out: Vec<Notification<Acc, E>>)
        ensures
            chunk_ok(old(state).observer, out@, final(state).observer),
            !old(state).observer ==> out@.len() == 0 && *final(state) == *old(state),
            old(state).observer && !old(state).outer_completed ==> out@.len() == 0
                && *final(state) == (SwitchScanState { inner_active: false, inner_sub: false, ..*old(state) }),
            old(state).observer && old(state).outer_completed ==> out@ == seq![Notification::<Acc, E>::Complete]
                && *final(state) == (SwitchScanState { inner_active: false, inner_sub: false, observer: false, ..*old(state) }),
    {
        if !state.observer {
            return Vec::new();
        }
        state.inner_active = false;
        state.inner_sub = false;
        if state.outer_completed {
            state.observer = false;
            emit_one(Notification::Complete)
        } else {
            Vec::new()
        }
    }

    pub fn is_closed<Acc>(&self, state: &SwitchScanState<Acc>, downstream_closed: bool) -> (b: bool)
        ensures
            b == (!state.observer || downstream_closed),
    {
        !state.observer || downstream_closed
    }
}

} // verus!
