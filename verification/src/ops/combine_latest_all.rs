//! CombineLatestAll: once every source has emitted, each new item from any
//! source emits the latest value of every source, in input order.
use crate::notification::{JoinOutcome, Notification, chunk_ok, emit_one};
use crate::slots::{all_some, clones_of, empty_slots, slots_full, snapshot, unwrap_all};
use crate::subscriptions::DynamicSubscriptions;
use vstd::prelude::*;

verus! {

/// Emits the latest values of every source.
///
/// Completes when all sources complete, or as soon as a source completes
/// without ever emitting (the result can then never emit). An empty list
/// completes immediately.
pub struct CombineLatestAll<O> {
    pub sources: Vec<O>,
}

/// State shared by every combine-latest observer.
pub struct CombineLatestAllState<Item> {
    /// The downstream observer is still attached.
    pub observer: bool,
    /// The latest value of each source, by index.
    pub latest: Vec<Option<Item>>,
    /// Sources that have not completed.
    pub remaining: usize,
    /// The source subscriptions held, by index.
    pub subs: DynamicSubscriptions,
}

impl<Item> CombineLatestAllState<Item> {
    pub open spec fn wf(&self) -> bool {
        &&& self.subs.wf()
        &&& self.subs.next_id_spec() <= self.latest@.len()
    }

    /// Enlists the next source while the observer is attached: it gets the
    /// next index. `None` once the result has already terminated.
    pub fn enlist(&mut self) -> (o: Option<CombineLatestAllObserver>)
        requires
            old(self).wf(),
            old(self).subs.next_id_spec() < old(self).latest@.len(),
        ensures
            final(self).wf(),
            !old(self).observer ==> o is None && *final(self) == *old(self),
            old(self).observer ==> {
                &&& o == Some(CombineLatestAllObserver { index: old(self).subs.next_id_spec() as usize })
                &&& final(self).subs@ == old(self).subs@
                &&& final(self).subs.next_id_spec() == old(self).subs.next_id_spec() + 1
                &&& final(self).observer == old(self).observer
                &&& final(self).latest == old(self).latest
                &&& final(self).remaining == old(self).remaining
            },
    {
        if !self.observer {
            return None;
        }
        let _total = self.latest.len();
        let id = self.subs.reserve_id();
        Some(CombineLatestAllObserver { index: id })
    }

    /// After subscribing the source of `index`: keep its subscription, or
    /// (false) cancel it because the result terminated meanwhile.
    pub fn settle(&mut self, index: usize) -> (keep: bool)
        requires
            old(self).wf(),
            index < old(self).subs.next_id_spec(),
        ensures
            final(self).wf(),
            keep == old(self).observer,
            keep ==> final(self).subs@ == old(self).subs@.insert(index),
            !keep ==> final(self).subs@ == old(self).subs@,
            final(self).subs.next_id_spec() == old(self).subs.next_id_spec(),
            final(self).observer == old(self).observer,
            final(self).latest == old(self).latest,
            final(self).remaining == old(self).remaining,
    {
        if self.observer {
            self.subs.insert(index);
            true
        } else {
            false
        }
    }
}

impl<O> CombineLatestAll<O> {
    /// Starts the operator: the state for `sources.len()` sources. An empty
    /// list completes at once.
    pub fn subscribe<Item, E>(&self) -> (r: (CombineLatestAllState<Item>, Vec<Notification<Vec<Item>, E>>))
        ensures
            r.0.wf(),
            r.0.latest@.len() == self.sources@.len(),
            forall|i: int| 0 <= i < r.0.latest@.len() ==> (#[trigger] r.0.latest@[i]) is None,
            r.0.remaining == self.sources@.len(),
            r.0.subs@ == Set::<usize>::empty(),
            r.0.subs.next_id_spec() == 0,
            self.sources@.len() == 0 ==> !r.0.observer && r.1@ == seq![Notification::<Vec<Item>, E>::Complete],
            self.sources@.len() > 0 ==> r.0.observer && r.1@.len() == 0,
    {
        let total = self.sources.len();
        let mut state = CombineLatestAllState {
            observer: true,
            latest: empty_slots(total),
            remaining: total,
            subs: DynamicSubscriptions::new(),
        };
        if total == 0 {
            state.observer = false;
            return (state, emit_one(Notification::Complete));
        }
        (state, Vec::new())
    }
}

/// Observer for one indexed source.
pub struct CombineLatestAllObserver {
    pub index: usize,
}

impl CombineLatestAllObserver {
    /// Records the source's latest value; once every source has one, emits
    /// them all.
    pub fn next<Item: Clone, E>(&self, state: &mut CombineLatestAllState<Item>, value: Item) -> (out: Vec<Notification<Vec<Item>, E>>)
        requires
            self.index < old(state).latest@.len(),
        ensures
            final(state).subs.next_id_spec() == old(state).subs.next_id_spec(),
            chunk_ok(old(state).observer, out@, final(state).observer),
            !old(state).observer ==> *final(state) == *old(state) && out@.len() == 0,
            old(state).observer ==> {
                &&& final(state).latest@ == old(state).latest@.update(self.index as int, Some(value))
                &&& final(state).observer
                &&& final(state).remaining == old(state).remaining
                &&& final(state).subs == old(state).subs
                &&& all_some(final(state).latest@) ==> out@.len() == 1
                    && (out@[0] matches Notification::Next(v) && clones_of(final(state).latest@, v@))
                &&& !all_some(final(state).latest@) ==> out@.len() == 0
            },
    {
        if !state.observer {
            return Vec::new();
        }
        state.latest.set(self.index, Some(value));
        if slots_full(&state.latest) {
            emit_one(Notification::Next(snapshot(&state.latest)))
        } else {
            Vec::new()
        }
    }

    /// Forwards the error and cancels the other sources.
    pub fn error<Item, E>(self, state: &mut CombineLatestAllState<Item>, err: E) -> (r: JoinOutcome<Vec<Item>, E>)
        requires
            old(state).wf(),
        ensures
            final(state).subs.next_id_spec() == old(state).subs.next_id_spec(),
            final(state).wf(),
            chunk_ok(old(state).observer, r.out@, final(state).observer),
            r.out@ == if old(state).observer { seq![Notification::<Vec<Item>, E>::Error(err)] } else { Seq::empty() },
            !final(state).observer,
            final(state).subs@ == Set::<usize>::empty(),
            final(state).latest == old(state).latest,
            final(state).remaining == old(state).remaining,
            forall|x: usize| r.cancelled@.contains(x) <==> old(state).subs@.remove(self.index).contains(x),
    {
        state.subs.remove(self.index);
        let out = if state.observer {
            state.observer = false;
            emit_one(Notification::Error(err))
        } else {
            Vec::new()
        };
        let cancelled = state.subs.unsubscribe_all();
        JoinOutcome { out, cancelled }
    }

    /// Completes the result when every source has completed, or when this
    /// source completes without ever emitting.
    pub fn complete<Item, E>(self, state: &mut CombineLatestAllState<Item>) -> (r: JoinOutcome<Vec<Item>, E>)
        requires
            old(state).wf(),
            self.index < old(state).latest@.len(),
            old(state).observer ==> old(state).remaining > 0,
        ensures
            final(state).subs.next_id_spec() == old(state).subs.next_id_spec(),
            final(state).wf(),
            chunk_ok(old(state).observer, r.out@, final(state).observer),
            final(state).latest == old(state).latest,
            !old(state).observer ==> {
                &&& r.out@.len() == 0
                &&& !final(state).observer
                &&& final(state).remaining == old(state).remaining
                &&& final(state).subs@ == old(state).subs@.remove(self.index)
            },
            old(state).observer ==> {
                let ends = old(state).latest@[self.index as int] is None || old(state).remaining == 1;
                &&& final(state).remaining == old(state).remaining - 1
                &&& ends ==> !final(state).observer && r.out@ == seq![Notification::<Vec<Item>, E>::Complete]
                    && final(state).subs@ == Set::<usize>::empty()
                &&& !ends ==> final(state).observer && r.out@.len() == 0
                    && final(state).subs@ == old(state).subs@.remove(self.index)
            },
            ({
                let ends = old(state).observer && (old(state).latest@[self.index as int] is None || old(state).remaining == 1);
                &&& ends ==> forall|x: usize| r.cancelled@.contains(x) <==> old(state).subs@.remove(self.index).contains(x)
                &&& !ends ==> r.cancelled@.len() == 0
            }),
    {
        state.subs.remove(self.index);
        if !state.observer {
            return JoinOutcome { out: Vec::new(), cancelled: Vec::new() };
        }
        let never_emitted = state.latest[self.index].is_none();
        state.remaining = state.remaining - 1;
        if never_emitted || state.remaining == 0 {
            state.observer = false;
            let cancelled = state.subs.unsubscribe_all();
            JoinOutcome { out: emit_one(Notification::Complete), cancelled }
        } else {
            JoinOutcome { out: Vec::new(), cancelled: Vec::new() }
        }
    }

    /// Closed once the result terminated or the downstream closed itself.
    pub fn is_closed<Item>(&self, state: &CombineLatestAllState<Item>, downstream_closed: bool) -> (b: bool)
        ensures
            b == (!state.observer || downstream_closed),
    {
        !state.observer || downstream_closed
    }
}

/// Once every source has emitted, every further item is emitted as a
/// combination: recording a value keeps every slot filled, and the
/// combination holds the new value at its source's position and the latest
/// value of each other source.
pub proof fn lemma_full_slots_stay_full<Item>(latest: Seq<Option<Item>>, index: int, value: Item)
    requires
        all_some(latest),
        0 <= index < latest.len(),
    ensures
        all_some(latest.update(index, Some(value))),
        unwrap_all(latest.update(index, Some(value))) == unwrap_all(latest).update(index, value),
{
    assert(unwrap_all(latest.update(index, Some(value))) =~= unwrap_all(latest).update(index, value));
}

} // verus!
