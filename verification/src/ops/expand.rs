//! Expand: recursive `flat_map`. Every emitted item, from the source or from
//! an inner observable, is fed back to the projection and its observable is
//! merged in.
use crate::notification::{Notification, chunk_ok, emit_one};
use crate::subscriptions::DynamicSubscriptions;
use vstd::prelude::*;

verus! {

/// Emits every source item, then feeds each emitted item to `func` and
/// merges the results, recursively. Completes when the source and every inner
/// observable have completed.
pub struct Expand<S, F> {
    pub source: S,
    pub func: F,
}

/// State shared by every observer of the expansion.
pub struct ExpandState {
    /// The downstream observer is still attached.
    pub observer: bool,
    /// Inner observables subscribed and not yet completed.
    pub active: usize,
    /// The source has completed.
    pub outer_done: bool,
    /// The inner subscriptions held, by id.
    pub subs: DynamicSubscriptions,
}

impl ExpandState {
    /// Completes the result once the source and every inner have completed.
    pub fn complete_if_done<Item, E>(&mut self) -> (out: Vec<Notification<Item, E>>)
        ensures
            final(self).subs.next_id_spec() == old(self).subs.next_id_spec(),
            chunk_ok(old(self).observer, out@, final(self).observer),
            final(self).active == old(self).active,
            final(self).outer_done == old(self).outer_done,
            final(self).subs == old(self).subs,
            old(self).outer_done && old(self).active == 0 && old(self).observer ==> {
                &&& !final(self).observer
                &&& out@ == seq![Notification::<Item, E>::Complete]
            },
            !(old(self).outer_done && old(self).active == 0 && old(self).observer) ==> {
                &&& final(self).observer == old(self).observer
                &&& out@.len() == 0
            },
    {
        if self.outer_done && self.active == 0 && self.observer {
            self.observer = false;
            emit_one(Notification::Complete)
        } else {
            Vec::new()
        }
    }

    /// After subscribing the inner observable of `id`: keep its subscription
    /// unless it already ended (`inner_closed`).
    pub fn keep(&mut self, id: usize, inner_closed: bool)
        requires
            old(self).subs.wf(),
            id < old(self).subs.next_id_spec(),
        ensures
            final(self).subs.wf(),
            final(self).subs@ == if inner_closed { old(self).subs@ } else { old(self).subs@.insert(id) },
            final(self).subs.next_id_spec() == old(self).subs.next_id_spec(),
            final(self).observer == old(self).observer,
            final(self).active == old(self).active,
            final(self).outer_done == old(self).outer_done,
    {
        if !inner_closed {
            self.subs.insert(id);
        }
    }
}

/// Emits `value` downstream and opens its expansion: the returned observer
/// must be subscribed to `func(value)`. Nothing happens once the result has
/// terminated.
pub fn spawn_expansion<Item, E>(state: &mut ExpandState, value: Item) -> (r: (Vec<Notification<Item, E>>, Option<ExpandObserver>))
    requires
        old(state).subs.wf(),
        old(state).active < usize::MAX,
        old(state).subs.next_id_spec() < usize::MAX,
    ensures
        final(state).subs.wf(),
        chunk_ok(old(state).observer, r.0@, final(state).observer),
        !old(state).observer ==> r.0@.len() == 0 && r.1 is None && *final(state) == *old(state),
        old(state).observer ==> {
            &&& r.0@ == seq![Notification::<Item, E>::Next(value)]
            &&& r.1 == Some(ExpandObserver { id: Some(old(state).subs.next_id_spec() as usize) })
            &&& final(state).observer
            &&& final(state).active == old(state).active + 1
            &&& final(state).outer_done == old(state).outer_done
            &&& final(state).subs@ == old(state).subs@
            &&& final(state).subs.next_id_spec() == old(state).subs.next_id_spec() + 1
        },
{
    if !state.observer {
        return (Vec::new(), None);
    }
    state.active = state.active + 1;
    let id = state.subs.reserve_id();
    (emit_one(Notification::Next(value)), Some(ExpandObserver { id: Some(id) }))
}

impl<S, F> Expand<S, F> {
    /// Starts the expansion: the shared state and the source's observer.
    pub fn subscribe(&self) -> (r: (ExpandState, ExpandObserver))
        ensures
            r.0.observer && r.0.active == 0 && !r.0.outer_done,
            r.0.subs@ == Set::<usize>::empty(),
            r.0.subs.wf(),
            r.0.subs.next_id_spec() == 0,
            r.1 == (ExpandObserver { id: None }),
    {
        (
            ExpandState { observer: true, active: 0, outer_done: false, subs: DynamicSubscriptions::new() },
            ExpandObserver { id: None },
        )
    }
}

/// Observer for the source (`id` is `None`) and for every inner observable.
pub struct ExpandObserver {
    pub id: Option<usize>,
}

impl ExpandObserver {
    /// Every item, wherever it comes from, is emitted and expanded.
    pub fn next<Item, E>(&self, state: &mut ExpandState, value: Item) -> (r: (Vec<Notification<Item, E>>, Option<ExpandObserver>))
        requires
            old(state).subs.wf(),
            old(state).active < usize::MAX,
            old(state).subs.next_id_spec() < usize::MAX,
        ensures
            final(state).subs.wf(),
            chunk_ok(old(state).observer, r.0@, final(state).observer),
            !old(state).observer ==> r.0@.len() == 0 && r.1 is None && *final(state) == *old(state),
            old(state).observer ==> {
                &&& r.0@ == seq![Notification::<Item, E>::Next(value)]
                &&& r.1 == Some(ExpandObserver { id: Some(old(state).subs.next_id_spec() as usize) })
                &&& final(state).observer
                &&& final(state).active == old(state).active + 1
                &&& final(state).outer_done == old(state).outer_done
                &&& final(state).subs@ == old(state).subs@
                &&& final(state).subs.next_id_spec() == old(state).subs.next_id_spec() + 1
            },
    {
        spawn_expansion(state, value)
    }

    /// Forwards the error and cancels every inner observable.
    pub fn error<Item, E>(self, state: &mut ExpandState, err: E) -> (out: Vec<Notification<Item, E>>)
        requires
            old(state).subs.wf(),
        ensures
            final(state).subs.next_id_spec() == old(state).subs.next_id_spec(),
            final(state).subs.wf(),
            chunk_ok(old(state).observer, out@, final(state).observer),
            out@ == if old(state).observer { seq![Notification::<Item, E>::Error(err)] } else { Seq::empty() },
            !final(state).observer,
            final(state).subs@ == Set::<usize>::empty(),
            final(state).active == old(state).active,
            final(state).outer_done == old(state).outer_done,
    {
        if let Some(id) = self.id {
            state.subs.remove(id);
        }
        let out = if state.observer {
            state.observer = false;
            emit_one(Notification::Error(err))
        } else {
            Vec::new()
        };
        let _ = state.subs.unsubscribe_all();
        out
    }

    /// The source's completion or an inner's: completes the result once
    /// nothing is left running.
    pub fn complete<Item, E>(self, state: &mut ExpandState) -> (out: Vec<Notification<Item, E>>)
        requires
            old(state).subs.wf(),
        ensures
            final(state).subs.next_id_spec() == old(state).subs.next_id_spec(),
            final(state).subs.wf(),
            chunk_ok(old(state).observer, out@, final(state).observer),
            final(state).subs@ == match self.id {
                Some(id) => old(state).subs@.remove(id),
                None => old(state).subs@,
            },
            final(state).outer_done == (old(state).outer_done || self.id is None),
            final(state).active == match self.id {
                Some(_) => if old(state).active == 0 { 0 } else { (old(state).active - 1) as usize },
                None => old(state).active,
            },
            final(state).outer_done && final(state).active == 0 && old(state).observer ==> {
                &&& !final(state).observer
                &&& out@ == seq![Notification::<Item, E>::Complete]
            },
            !(final(state).outer_done && final(state).active == 0 && old(state).observer) ==> {
                &&& final(state).observer == old(state).observer
                &&& out@.len() == 0
            },
    {
        match self.id {
            Some(id) => {
                state.subs.remove(id);
                state.active = if state.active == 0 { 0 } else { state.active - 1 };
            },
            None => {
                state.outer_done = true;
            },
        }
        state.complete_if_done()
    }

    /// Closed once the result terminated or the downstream closed itself.
    pub fn is_closed(&self, state: &ExpandState, downstream_closed: bool) -> (b: bool)
        ensures
            b == (!state.observer || downstream_closed),
    {
        !state.observer || downstream_closed
    }
}

} // verus!
