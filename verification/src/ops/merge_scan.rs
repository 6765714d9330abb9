//! MergeScan: like `scan`, but the accumulator function returns an
//! observable whose emissions become the new accumulator.
use crate::notification::{Notification, chunk_ok, emit_one};
use crate::subscriptions::DynamicSubscriptions;
use vstd::prelude::*;

verus! {

/// Accumulate through observables.
///
/// For each item, `func(acc, item)` returns an observable of accumulators;
/// each of its emissions becomes the current accumulator and is emitted.
/// Inner observables run concurrently. Completes when the source and every
/// inner observable have completed.
pub struct MergeScan<S, F, Acc> {
    pub source: S,
    pub func: F,
    pub seed: Acc,
}

/// State shared by the source and inner observers.
pub struct MergeScanState<Acc> {
    /// The downstream observer is still attached.
    pub observer: bool,
    pub acc: Acc,
    /// Inner observables not yet completed.
    pub active: usize,
    pub outer_done: bool,
    /// The inner subscriptions held, by id.
    pub subs: DynamicSubscriptions,
}

impl<S, F, Acc: Clone> MergeScan<S, F, Acc> {
    pub fn subscribe(&self) -> (r: (MergeScanState<Acc>, MergeScanSourceObserver))
        ensures
            r.0.observer && vstd::pervasive::cloned(self.seed, r.0.acc) && r.0.active == 0 && !r.0.outer_done,
            r.0.subs@ == Set::<usize>::empty(),
            r.0.subs.wf(),
            r.0.subs.next_id_spec() == 0,
    {
        (
            MergeScanState {
                observer: true,
                acc: self.seed.clone(),
                active: 0,
                outer_done: false,
                subs: DynamicSubscriptions::new(),
            },
            MergeScanSourceObserver {},
        )
    }
}

impl<Acc> MergeScanState<Acc> {
    /// Completes the result once the source and every inner completed.
    pub fn complete_if_done<E>(&mut self) -> (out: Vec<Notification<Acc, E>>)
        ensures
            final(self).subs.next_id_spec() == old(self).subs.next_id_spec(),
            chunk_ok(old(self).observer, out@, final(self).observer),
            final(self).acc == old(self).acc,
            final(self).active == old(self).active,
            final(self).outer_done == old(self).outer_done,
            final(self).subs == old(self).subs,
            old(self).outer_done && old(self).active == 0 && old(self).observer ==> !final(self).observer
                && out@ == seq![Notification::<Acc, E>::Complete],
            !(old(self).outer_done && old(self).active == 0 && old(self).observer) ==> final(self).observer
                == old(self).observer && out@.len() == 0,
    {
        if self.outer_done && self.active == 0 && self.observer {
            self.observer = false;
            emit_one(Notification::Complete)
        } else {
            Vec::new()
        }
    }

    /// After subscribing the inner of `id`: keep its subscription unless it
    /// already completed.
    pub fn keep(&mut self, id: usize, inner_closed: bool)
        requires
            old(self).subs.wf(),
            id < old(self).subs.next_id_spec(),
        ensures
            final(self).subs.wf(),
            final(self).subs@ == if inner_closed { old(self).subs@ } else { old(self).subs@.insert(id) },
            final(self).subs.next_id_spec() == old(self).subs.next_id_spec(),
            final(self).observer == old(self).observer,
            final(self).acc == old(self).acc,
            final(self).active == old(self).active,
            final(self).outer_done == old(self).outer_done,
    {
        if !inner_closed {
            self.subs.insert(id);
        }
    }
}

/// Observer for one inner observable.
pub struct MergeScanInnerObserver {
    pub id: usize,
}

impl MergeScanInnerObserver {
    /// An inner emission becomes the accumulator and is emitted.
    pub fn next<Acc: Clone, E>(&self, state: &mut MergeScanState<Acc>, value: Acc) -> (out: Vec<Notification<Acc, E>>)
        ensures
            final(state).subs.next_id_spec() == old(state).subs.next_id_spec(),
            chunk_ok(old(state).observer, out@, final(state).observer),
            !old(state).observer ==> out@.len() == 0 && *final(state) == *old(state),
            old(state).observer ==> out@ == seq![Notification::<Acc, E>::Next(value)]
                && *final(state) == (MergeScanState { acc: final(state).acc, ..*old(state) })
                && vstd::pervasive::cloned(value, final(state).acc),
    {
        if !state.observer {
            return Vec::new();
        }
        state.acc = value.clone();
        emit_one(Notification::Next(value))
    }

    /// An inner error ends the result and cancels every inner.
    pub fn error<Acc, E>(self, state: &mut MergeScanState<Acc>, err: E) -> (out: Vec<Notification<Acc, E>>)
        requires
            old(state).subs.wf(),
        ensures
            final(state).subs.next_id_spec() == old(state).subs.next_id_spec(),
            final(state).subs.wf(),
            chunk_ok(old(state).observer, out@, final(state).observer),
            out@ == if old(state).observer { seq![Notification::<Acc, E>::Error(err)] } else { Seq::empty() },
            !final(state).observer,
            final(state).subs@ == Set::<usize>::empty(),
            final(state).acc == old(state).acc,
            final(state).active == old(state).active,
            final(state).outer_done == old(state).outer_done,
    {
        state.subs.remove(self.id);
        let out = if state.observer {
            state.observer = false;
            emit_one(Notification::Error(err))
        } else {
            Vec::new()
        };
        let _ = state.subs.unsubscribe_all();
        out
    }

    /// An inner completed: the result completes once nothing runs.
    pub fn complete<Acc, E>(self, state: &mut MergeScanState<Acc>) -> (out: Vec<Notification<Acc, E>>)
        requires
            old(state).subs.wf(),
        ensures
            final(state).subs.next_id_spec() == old(state).subs.next_id_spec(),
            final(state).subs.wf(),
            chunk_ok(old(state).observer, out@, final(state).observer),
            final(state).subs@ == old(state).subs@.remove(self.id),
            final(state).active == if old(state).active == 0 { 0 } else { (old(state).active - 1) as usize },
            final(state).acc == old(state).acc,
            final(state).outer_done == old(state).outer_done,
            old(state).outer_done && final(state).active == 0 && old(state).observer ==> !final(state).observer
                && out@ == seq![Notification::<Acc, E>::Complete],
            !(old(state).outer_done && final(state).active == 0 && old(state).observer) ==> final(state).observer
                == old(state).observer && out@.len() == 0,
    {
        state.subs.remove(self.id);
        state.active = if state.active == 0 { 0 } else { state.active - 1 };
        state.complete_if_done()
    }

    pub fn is_closed<Acc>(&self, state: &MergeScanState<Acc>, downstream_closed: bool) -> (b: bool)
        ensures
            b == (!state.observer || downstream_closed),
    {
        !state.observer || downstream_closed
    }
}

/// Observer for the source.
pub struct MergeScanSourceObserver {}

impl MergeScanSourceObserver {
    /// A source item starts an inner observable: `func` gets the returned
    /// accumulator and the item, and its result is subscribed with the
    /// returned observer.
    pub fn next<Acc: Clone>(&self, state: &mut MergeScanState<Acc>) -> (r: Option<(Acc, MergeScanInnerObserver)>)
        requires
            old(state).subs.wf(),
            old(state).subs.next_id_spec() < usize::MAX,
            old(state).active < usize::MAX,
        ensures
            final(state).subs.wf(),
            !old(state).observer ==> r is None && *final(state) == *old(state),
            old(state).observer ==> {
                &&& r matches Some((acc, inner)) && vstd::pervasive::cloned(old(state).acc, acc)
                    && inner == (MergeScanInnerObserver { id: old(state).subs.next_id_spec() as usize })
                &&& final(state).active == old(state).active + 1
                &&& final(state).observer
                &&& final(state).acc == old(state).acc
                &&& final(state).outer_done == old(state).outer_done
                &&& final(state).subs@ == old(state).subs@
                &&& final(state).subs.next_id_spec() == old(state).subs.next_id_spec() + 1
            },
    {
        if !state.observer {
            return None;
        }
        let acc = state.acc.clone();
        let id = state.subs.reserve_id();
        state.active = state.active + 1;
        Some((acc, MergeScanInnerObserver { id }))
    }

    /// The source error ends the result and cancels every inner.
    pub fn error<Acc, E>(self, state: &mut MergeScanState<Acc>, err: E) -> (out: Vec<Notification<Acc, E>>)
        requires
            old(state).subs.wf(),
        ensures
            final(state).subs.next_id_spec() == old(state).subs.next_id_spec(),
            final(state).subs.wf(),
            chunk_ok(old(state).observer, out@, final(state).observer),
            out@ == if old(state).observer { seq![Notification::<Acc, E>::Error(err)] } else { Seq::empty() },
            !final(state).observer,
            final(state).subs@ == Set::<usize>::empty(),
            final(state).acc == old(state).acc,
            final(state).active == old(state).active,
            final(state).outer_done == old(state).outer_done,
    {
        let out = if state.observer {
            state.observer = false;
            emit_one(Notification::Error(err))
        } else {
            Vec::new()
        };
        let _ = state.subs.unsubscribe_all();
        out
    }

    /// The source completed: the result completes once nothing runs.
    pub fn complete<Acc, E>(self, state: &mut MergeScanState<Acc>) -> (out: Vec<Notification<Acc, E>>)
        ensures
            final(state).subs.next_id_spec() == old(state).subs.next_id_spec(),
            chunk_ok(old(state).observer, out@, final(state).observer),
            final(state).outer_done,
            final(state).acc == old(state).acc,
            final(state).active == old(state).active,
            final(state).subs == old(state).subs,
            old(state).active == 0 && old(state).observer ==> !final(state).observer
                && out@ == seq![Notification::<Acc, E>::Complete],
            !(old(state).active == 0 && old(state).observer) ==> final(state).observer == old(state).observer
                && out@.len() == 0,
    {
        state.outer_done = true;
        state.complete_if_done()
    }

    pub fn is_closed<Acc>(&self, state: &MergeScanState<Acc>, downstream_closed: bool) -> (b: bool)
        ensures
            b == (!state.observer || downstream_closed),
    {
        !state.observer || downstream_closed
    }
}

} // verus!
