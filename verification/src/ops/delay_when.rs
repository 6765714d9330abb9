//! DelayWhen: delays each item until an observable chosen for that item
//! emits or completes.
use crate::notification::{Notification, chunk_ok, emit_one};
use crate::subscriptions::DynamicSubscriptions;
use vstd::prelude::*;

verus! {

/// Delay every item by its own duration observable.
///
/// The item is emitted when that observable first emits or completes. Items
/// may be reordered if their delays differ. Completes once the source has
/// completed and every pending delay has resolved.
pub struct DelayWhen<S, F> {
    pub source: S,
    pub selector: F,
}

/// State shared by the source and delay observers.
pub struct DelayWhenState {
    /// The downstream observer is still attached.
    pub observer: bool,
    /// Items waiting for their delay.
    pub pending: usize,
    pub outer_done: bool,
    /// The delay subscriptions held, by id.
    pub subs: DynamicSubscriptions,
}

impl<S, F> DelayWhen<S, F> {
    pub fn subscribe(&self) -> (r: (DelayWhenState, DelayWhenSourceObserver))
        ensures
            r.0.observer && r.0.pending == 0 && !r.0.outer_done,
            r.0.subs@ == Set::<usize>::empty(),
            r.0.subs.wf(),
            r.0.subs.next_id_spec() == 0,
    {
        (
            DelayWhenState { observer: true, pending: 0, outer_done: false, subs: DynamicSubscriptions::new() },
            DelayWhenSourceObserver {},
        )
    }
}

impl DelayWhenState {
    /// Completes the result once the source completed and nothing is
    /// pending.
    pub fn complete_if_done<Item, E>(&mut self) -> (out: Vec<Notification<Item, E>>)
        ensures
            final(self).subs.next_id_spec() == old(self).subs.next_id_spec(),
            chunk_ok(old(self).observer, out@, final(self).observer),
            final(self).pending == old(self).pending,
            final(self).outer_done == old(self).outer_done,
            final(self).subs == old(self).subs,
            old(self).outer_done && old(self).pending == 0 && old(self).observer ==> !final(self).observer
                && out@ == seq![Notification::<Item, E>::Complete],
            !(old(self).outer_done && old(self).pending == 0 && old(self).observer) ==> final(self).observer
                == old(self).observer && out@.len() == 0,
    {
        if self.outer_done && self.pending == 0 && self.observer {
            self.observer = false;
            emit_one(Notification::Complete)
        } else {
            Vec::new()
        }
    }

    /// After subscribing the delay of `id`: keep its subscription unless it
    /// already resolved.
    pub fn keep(&mut self, id: usize, inner_closed: bool)
        requires
            old(self).subs.wf(),
            id < old(self).subs.next_id_spec(),
        ensures
            final(self).subs.wf(),
            final(self).subs@ == if inner_closed { old(self).subs@ } else { old(self).subs@.insert(id) },
            final(self).subs.next_id_spec() == old(self).subs.next_id_spec(),
            final(self).observer == old(self).observer,
            final(self).pending == old(self).pending,
            final(self).outer_done == old(self).outer_done,
    {
        if !inner_closed {
            self.subs.insert(id);
        }
    }
}

/// Observer for one item's delay observable.
pub struct DelayWhenInnerObserver<Item> {
    pub id: usize,
    /// The delayed item, until released.
    pub value: Option<Item>,
}

impl<Item> DelayWhenInnerObserver<Item> {
    /// The delay resolved: the item is emitted (once).
    pub fn fire<E>(&mut self, state: &mut DelayWhenState) -> (out: Vec<Notification<Item, E>>)
        requires
            old(state).subs.wf(),
            old(self).value is Some ==> old(state).pending > 0,
        ensures
            final(state).subs.next_id_spec() == old(state).subs.next_id_spec(),
            final(state).subs.wf(),
            chunk_ok(old(state).observer, out@, final(state).observer),
            final(self).value is None,
            final(self).id == old(self).id,
            old(self).value is None ==> out@.len() == 0 && *final(state) == *old(state),
            old(self).value matches Some(v) ==> {
                let ends = old(state).outer_done && old(state).pending == 1 && old(state).observer;
                &&& final(state).pending == old(state).pending - 1
                &&& final(state).outer_done == old(state).outer_done
                &&& final(state).subs@ == old(state).subs@.remove(old(self).id)
                &&& final(state).observer == (old(state).observer && !ends)
                &&& out@ == if !old(state).observer {
                    Seq::empty()
                } else if ends {
                    seq![Notification::<Item, E>::Next(v), Notification::Complete]
                } else {
                    seq![Notification::<Item, E>::Next(v)]
                }
            },
    {
        let taken = self.value.take();
        let value = match taken {
            Some(v) => v,
            None => return Vec::new(),
        };
        let mut out = if state.observer { emit_one(Notification::Next(value)) } else { Vec::new() };
        state.pending = state.pending - 1;
        let mut done = state.complete_if_done();
        out.append(&mut done);
        state.subs.remove(self.id);
        out
    }

    /// The delay emitted.
    pub fn next<E>(&mut self, state: &mut DelayWhenState) -> (out: Vec<Notification<Item, E>>)
        requires
            old(state).subs.wf(),
            old(self).value is Some ==> old(state).pending > 0,
        ensures
            final(state).subs.next_id_spec() == old(state).subs.next_id_spec(),
            final(state).subs.wf(),
            chunk_ok(old(state).observer, out@, final(state).observer),
            final(self).value is None,
            final(self).id == old(self).id,
            old(self).value is None ==> out@.len() == 0 && *final(state) == *old(state),
            old(self).value matches Some(v) ==> {
                let ends = old(state).outer_done && old(state).pending == 1 && old(state).observer;
                &&& final(state).pending == old(state).pending - 1
                &&& final(state).outer_done == old(state).outer_done
                &&& final(state).subs@ == old(state).subs@.remove(old(self).id)
                &&& final(state).observer == (old(state).observer && !ends)
                &&& out@ == if !old(state).observer {
                    Seq::empty()
                } else if ends {
                    seq![Notification::<Item, E>::Next(v), Notification::Complete]
                } else {
                    seq![Notification::<Item, E>::Next(v)]
                }
            },
    {
        self.fire(state)
    }

    /// A delay error ends the result and cancels every delay.
    pub fn error<E>(self, state: &mut DelayWhenState, err: E) -> (out: Vec<Notification<Item, E>>)
        requires
            old(state).subs.wf(),
        ensures
            final(state).subs.next_id_spec() == old(state).subs.next_id_spec(),
            final(state).subs.wf(),
            chunk_ok(old(state).observer, out@, final(state).observer),
            out@ == if old(state).observer { seq![Notification::<Item, E>::Error(err)] } else { Seq::empty() },
            !final(state).observer,
            final(state).subs@ == Set::<usize>::empty(),
            final(state).pending == old(state).pending,
            final(state).outer_done == old(state).outer_done,
    {
        state.subs.remove(self.id);
        let out = if state.observer {
            state.observer = false;
            emit_one(Notification::Error(err))
        } else {
            Vec::new()
        };
        let _ = state.subs.unsubscribe_all();
        out
    }

    /// A delay that completes without emitting also releases the item.
    pub fn complete<E>(self, state: &mut DelayWhenState) -> (out: Vec<Notification<Item, E>>)
        requires
            old(state).subs.wf(),
            self.value is Some ==> old(state).pending > 0,
        ensures
            final(state).subs.next_id_spec() == old(state).subs.next_id_spec(),
            final(state).subs.wf(),
            chunk_ok(old(state).observer, out@, final(state).observer),
            self.value is None ==> out@.len() == 0 && *final(state) == *old(state),
            self.value matches Some(v) ==> {
                let ends = old(state).outer_done && old(state).pending == 1 && old(state).observer;
                &&& final(state).pending == old(state).pending - 1
                &&& final(state).outer_done == old(state).outer_done
                &&& final(state).subs@ == old(state).subs@.remove(self.id)
                &&& final(state).observer == (old(state).observer && !ends)
                &&& out@ == if !old(state).observer {
                    Seq::empty()
                } else if ends {
                    seq![Notification::<Item, E>::Next(v), Notification::Complete]
                } else {
                    seq![Notification::<Item, E>::Next(v)]
                }
            },
    {
        let mut this = self;
        this.fire(state)
    }

    /// Closed once the item was released, the result ended, or the
    /// downstream closed itself.
    pub fn is_closed(&self, state: &DelayWhenState, downstream_closed: bool) -> (b: bool)
        ensures
            b == (self.value is None || !state.observer || downstream_closed),
    {
        self.value.is_none() || !state.observer || downstream_closed
    }
}

/// Observer for the source.
pub struct DelayWhenSourceObserver {}

impl DelayWhenSourceObserver {
    /// An item starts its delay: the returned observer, holding it, must be
    /// subscribed to `selector(&item)`.
    pub fn next<Item>(&self, state: &mut DelayWhenState, value: Item) -> (o: Option<DelayWhenInnerObserver<Item>>)
        requires
            old(state).subs.wf(),
            old(state).subs.next_id_spec() < usize::MAX,
            old(state).pending < usize::MAX,
        ensures
            final(state).subs.wf(),
            !old(state).observer ==> o is None && *final(state) == *old(state),
            old(state).observer ==> {
                &&& o == Some(DelayWhenInnerObserver { id: old(state).subs.next_id_spec() as usize, value: Some(value) })
                &&& final(state).pending == old(state).pending + 1
                &&& final(state).observer
                &&& final(state).outer_done == old(state).outer_done
                &&& final(state).subs@ == old(state).subs@
                &&& final(state).subs.next_id_spec() == old(state).subs.next_id_spec() + 1
            },
    {
        if !state.observer {
            return None;
        }
        let id = state.subs.reserve_id();
        state.pending = state.pending + 1;
        Some(DelayWhenInnerObserver { id, value: Some(value) })
    }

    /// The source error ends the result and cancels every delay.
    pub fn error<Item, E>(self, state: &mut DelayWhenState, err: E) -> (out: Vec<Notification<Item, E>>)
        requires
            old(state).subs.wf(),
        ensures
            final(state).subs.next_id_spec() == old(state).subs.next_id_spec(),
            final(state).subs.wf(),
            chunk_ok(old(state).observer, out@, final(state).observer),
            out@ == if old(state).observer { seq![Notification::<Item, E>::Error(err)] } else { Seq::empty() },
            !final(state).observer,
            final(state).subs@ == Set::<usize>::empty(),
            final(state).pending == old(state).pending,
            final(state).outer_done == old(state).outer_done,
    {
        let out = if state.observer {
            state.observer = false;
            emit_one(Notification::Error(err))
        } else {
            Vec::new()
        };
        let _ = state.subs.unsubscribe_all();
        out
    }

    /// The source completed: the result completes once nothing is pending.
    pub fn complete<Item, E>(self, state: &mut DelayWhenState) -> (out: Vec<Notification<Item, E>>)
        ensures
            final(state).subs.next_id_spec() == old(state).subs.next_id_spec(),
            chunk_ok(old(state).observer, out@, final(state).observer),
            final(state).outer_done,
            final(state).pending == old(state).pending,
            final(state).subs == old(state).subs,
            old(state).pending == 0 && old(state).observer ==> !final(state).observer
                && out@ == seq![Notification::<Item, E>::Complete],
            !(old(state).pending == 0 && old(state).observer) ==> final(state).observer == old(state).observer
                && out@.len() == 0,
    {
        state.outer_done = true;
        state.complete_if_done()
    }

    pub fn is_closed(&self, state: &DelayWhenState, downstream_closed: bool) -> (b: bool)
        ensures
            b == (!state.observer || downstream_closed),
    {
        !state.observer || downstream_closed
    }
}

} // verus!
