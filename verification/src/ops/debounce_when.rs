//! DebounceWhen: emits an item only when the observable chosen for it emits
//! or completes before the source produces another item; a newer item
//! cancels the pending one and its duration.
use crate::notification::{Notification, chunk_ok, emit_one};
use vstd::prelude::*;

verus! {

pub struct DebounceWhen<S, F> {
    pub source: S,
    pub selector: F,
}

pub struct DebounceWhenState<Item> {
    /// The downstream observer is still attached.
    pub observer: bool,
    /// The item waiting for its duration.
    pub pending: Option<Item>,
    /// Bumped for every item; older durations stand down.
    pub generation: usize,
    /// The current duration's subscription is held.
    pub slot: bool,
}

impl<S, F> DebounceWhen<S, F> {
    pub fn subscribe<Item>(&self) -> (r: (DebounceWhenState<Item>, DebounceWhenSourceObserver))
        ensures
            r.0.observer && r.0.pending is None && r.0.generation == 0 && !r.0.slot,
    {
        (DebounceWhenState { observer: true, pending: None, generation: 0, slot: false }, DebounceWhenSourceObserver {})
    }
}

impl<Item> DebounceWhenState<Item> {
    /// After subscribing the duration: keep its subscription unless it fired
    /// synchronously (nothing is pending any more).
    pub fn keep_duration(&mut self)
        ensures
            *final(self) == (DebounceWhenState { slot: old(self).pending is Some, ..*old(self) }),
    {
        self.slot = self.pending.is_some();
    }
}

/// Observer for one item's duration.
pub struct DebounceWhenDurationObserver {
    pub generation: usize,
}

impl DebounceWhenDurationObserver {
    /// The current duration ended: the pending item is emitted.
    pub fn fire<Item, E>(&self, state: &mut DebounceWhenState<Item>) -> (out: Vec<Notification<Item, E>>)
        ensures
            chunk_ok(old(state).observer, out@, final(state).observer),
            old(state).generation != self.generation ==> out@.len() == 0 && *final(state) == *old(state),
            old(state).generation == self.generation ==> {
                &&& *final(state) == (DebounceWhenState { pending: None, ..*old(state) })
                &&& out@ == match old(state).pending {
                    Some(v) => if old(state).observer { seq![Notification::<Item, E>::Next(v)] } else { Seq::empty() },
                    None => Seq::empty(),
                }
            },
    {
        if state.generation != self.generation {
            return Vec::new();
        }
        let value = state.pending.take();
        match value {
            Some(v) => if state.observer {
                emit_one(Notification::Next(v))
            } else {
                Vec::new()
            },
            None => Vec::new(),
        }
    }

    /// The duration emitted.
    pub fn next<Item, E>(&self, state: &mut DebounceWhenState<Item>) -> (out: Vec<Notification<Item, E>>)
        ensures
            chunk_ok(old(state).observer, out@, final(state).observer),
            old(state).generation != self.generation ==> out@.len() == 0 && *final(state) == *old(state),
            old(state).generation == self.generation ==> {
                &&& *final(state) == (DebounceWhenState { pending: None, ..*old(state) })
                &&& out@ == match old(state).pending {
                    Some(v) => if old(state).observer { seq![Notification::<Item, E>::Next(v)] } else { Seq::empty() },
                    None => Seq::empty(),
                }
            },
    {
        self.fire(state)
    }

    /// A duration error ends the result.
    pub fn error<Item, E>(self, state: &mut DebounceWhenState<Item>, err: E) -> (out: Vec<Notification<Item, E>>)
        ensures
            chunk_ok(old(state).observer, out@, final(state).observer),
            out@ == if old(state).observer { seq![Notification::<Item, E>::Error(err)] } else { Seq::empty() },
            *final(state) == (DebounceWhenState { observer: false, ..*old(state) }),
    {
        if state.observer {
            state.observer = false;
            emit_one(Notification::Error(err))
        } else {
            Vec::new()
        }
    }

    /// A duration that completes without emitting also releases the item.
    pub fn complete<Item, E>(self, state: &mut DebounceWhenState<Item>) -> (out: Vec<Notification<Item, E>>)
        ensures
            chunk_ok(old(state).observer, out@, final(state).observer),
            old(state).generation != self.generation ==> out@.len() == 0 && *final(state) == *old(state),
            old(state).generation == self.generation ==> {
                &&& *final(state) == (DebounceWhenState { pending: None, ..*old(state) })
                &&& out@ == match old(state).pending {
                    Some(v) => if old(state).observer { seq![Notification::<Item, E>::Next(v)] } else { Seq::empty() },
                    None => Seq::empty(),
                }
            },
    {
        self.fire(state)
    }

    /// Closed once stale, once nothing is pending, once the result ended, or
    /// when the downstream closed itself.
    pub fn is_closed<Item>(&self, state: &DebounceWhenState<Item>, downstream_closed: bool) -> (b: bool)
        ensures
            b == (state.generation != self.generation || state.pending is None || !state.observer || downstream_closed),
    {
        state.generation != self.generation || state.pending.is_none() || !state.observer || downstream_closed
    }
}

/// Observer for the source.
pub struct DebounceWhenSourceObserver {}

/// What a source item asks for.
pub struct DebounceStart {
    /// The previous duration's subscription must be cancelled.
    pub cancel_previous: bool,
    /// Subscribe this observer to `selector(&item)`.
    pub observer: DebounceWhenDurationObserver,
}

impl DebounceWhenSourceObserver {
    /// A new item replaces the pending one and starts its own duration.
    pub fn next<Item>(&self, state: &mut DebounceWhenState<Item>, value: Item) -> (r: Option<DebounceStart>)
        requires
            old(state).generation < usize::MAX,
        ensures
            !old(state).observer ==> r is None && *final(state) == *old(state),
            old(state).observer ==> {
                &&& r == Some(DebounceStart {
                    cancel_previous: old(state).slot,
                    observer: DebounceWhenDurationObserver { generation: (old(state).generation + 1) as usize },
                })
                &&& *final(state) == (DebounceWhenState {
                    observer: true,
                    pending: Some(value),
                    generation: (old(state).generation + 1) as usize,
                    slot: false,
                })
            },
    {
        if !state.observer {
            return None;
        }
        state.generation = state.generation + 1;
        state.pending = Some(value);
        let cancel_previous = state.slot;
        state.slot = false;
        Some(DebounceStart { cancel_previous, observer: DebounceWhenDurationObserver { generation: state.generation } })
    }

    /// The source error cancels the duration and ends the result; the pending
    /// item is dropped.
    pub fn error<Item, E>(self, state: &mut DebounceWhenState<Item>, err: E) -> (r: (Vec<Notification<Item, E>>, bool))
        ensures
            chunk_ok(old(state).observer, r.0@, final(state).observer),
            r.0@ == if old(state).observer { seq![Notification::<Item, E>::Error(err)] } else { Seq::empty() },
            r.1 == old(state).slot,
            *final(state) == (DebounceWhenState { observer: false, slot: false, ..*old(state) }),
    {
        let cancel = state.slot;
        state.slot = false;
        let out = if state.observer {
            state.observer = false;
            emit_one(Notification::Error(err))
        } else {
            Vec::new()
        };
        (out, cancel)
    }

    /// The source completed: the duration is cancelled, the pending item is
    /// flushed, then the completion.
    pub fn complete<Item, E>(self, state: &mut DebounceWhenState<Item>) -> (r: (Vec<Notification<Item, E>>, bool))
        requires
            old(state).generation < usize::MAX,
        ensures
            chunk_ok(old(state).observer, r.0@, final(state).observer),
            r.1 == old(state).slot,
            *final(state) == (DebounceWhenState::<Item> {
                observer: false,
                pending: None,
                generation: (old(state).generation + 1) as usize,
                slot: false,
            }),
            r.0@ == if !old(state).observer {
                Seq::empty()
            } else {
                match old(state).pending {
                    Some(v) => seq![Notification::<Item, E>::Next(v), Notification::Complete],
                    None => seq![Notification::<Item, E>::Complete],
                }
            },
    {
        let cancel = state.slot;
        state.slot = false;
        state.generation = state.generation + 1;
        let pending = state.pending.take();
        let observer = state.observer;
        state.observer = false;
        if !observer {
            return (Vec::new(), cancel);
        }
        let mut out = Vec::new();
        if let Some(value) = pending {
            out.push(Notification::Next(value));
        }
        out.push(Notification::Complete);
        (out, cancel)
    }

    pub fn is_closed<Item>(&self, state: &DebounceWhenState<Item>, downstream_closed: bool) -> (b: bool)
        ensures
            b == (!state.observer || downstream_closed),
    {
        !state.observer || downstream_closed
    }
}

} // verus!
