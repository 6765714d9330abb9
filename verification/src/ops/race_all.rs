//! RaceAll: mirrors the first of many sources to emit.
use crate::notification::{Notification, chunk_ok, emit_one};
use crate::subscriptions::DynamicSubscriptions;
use vstd::prelude::*;

verus! {

/// Mirrors the first of many sources to emit any event.
///
/// Sources are subscribed in order; once one emits, the rest are
/// unsubscribed (or never subscribed) and the winner is mirrored. An empty
/// list completes immediately.
pub struct RaceAll<O> {
    pub sources: Vec<O>,
}

/// State shared by every race observer.
pub struct RaceAllState {
    /// The downstream observer is still attached.
    pub observer: bool,
    pub winner: Option<usize>,
    /// The source subscriptions held, by index.
    pub subs: DynamicSubscriptions,
}

/// Observer for one indexed source.
pub struct RaceAllObserver {
    pub index: usize,
}

/// What an event of one source does: what it emits, and the subscriptions
/// it cancelled by winning.
pub struct RaceAllOutcome<Item, E> {
    pub out: Vec<Notification<Item, E>>,
    pub cancelled: Vec<usize>,
}

impl<O> RaceAll<O> {
    /// Starts the race with no source subscribed yet.
    pub fn subscribe(&self) -> (s: RaceAllState)
        ensures
            s.observer && s.winner is None,
            s.subs@ == Set::<usize>::empty(),
            s.subs.wf(),
            s.subs.next_id_spec() == 0,
    {
        RaceAllState { observer: true, winner: None, subs: DynamicSubscriptions::new() }
    }
}

impl RaceAllState {
    /// Enlists the next source, unless a winner is known: then the remaining
    /// sources are never subscribed.
    pub fn enlist(&mut self) -> (o: Option<RaceAllObserver>)
        requires
            old(self).subs.wf(),
            old(self).winner is None ==> old(self).subs.next_id_spec() < usize::MAX,
        ensures
            final(self).subs.wf(),
            old(self).winner is Some ==> o is None && *final(self) == *old(self),
            old(self).winner is None ==> {
                &&& o == Some(RaceAllObserver { index: old(self).subs.next_id_spec() as usize })
                &&& final(self).subs@ == old(self).subs@
                &&& final(self).subs.next_id_spec() == old(self).subs.next_id_spec() + 1
                &&& final(self).observer == old(self).observer
                &&& final(self).winner == old(self).winner
            },
    {
        if self.winner.is_some() {
            return None;
        }
        let id = self.subs.reserve_id();
        Some(RaceAllObserver { index: id })
    }

    /// After subscribing source `index`: keep it, unless another source won
    /// while it was subscribing (then it must be unsubscribed).
    pub fn settle(&mut self, index: usize) -> (keep: bool)
        requires
            old(self).subs.wf(),
            index < old(self).subs.next_id_spec(),
        ensures
            final(self).subs.wf(),
            keep == !(old(self).winner is Some && old(self).winner != Some(index)),
            final(self).subs@ == if keep { old(self).subs@.insert(index) } else { old(self).subs@ },
            final(self).subs.next_id_spec() == old(self).subs.next_id_spec(),
            final(self).observer == old(self).observer,
            final(self).winner == old(self).winner,
    {
        match self.winner {
            Some(w) => if w != index {
                return false;
            },
            None => {},
        }
        self.subs.insert(index);
        true
    }

    /// After the enlisting loop: with no source at all, the result completes.
    pub fn finish_enlisting<Item, E>(&mut self) -> (out: Vec<Notification<Item, E>>)
        ensures
            chunk_ok(old(self).observer, out@, final(self).observer),
            final(self).winner == old(self).winner,
            final(self).subs == old(self).subs,
            old(self).subs.next_id_spec() == 0 && old(self).observer ==> !final(self).observer
                && out@ == seq![Notification::<Item, E>::Complete],
            !(old(self).subs.next_id_spec() == 0 && old(self).observer) ==> final(self).observer == old(self).observer
                && out@.len() == 0,
    {
        if self.subs.next_id() == 0 && self.observer {
            self.observer = false;
            emit_one(Notification::Complete)
        } else {
            Vec::new()
        }
    }
}

impl RaceAllObserver {
    /// True when this source is, or just became, the winner. Winning cancels
    /// every other source (returned) and keeps this one's subscription.
    pub fn claim(&self, state: &mut RaceAllState) -> (r: (bool, Vec<usize>))
        requires
            old(state).subs.wf(),
        ensures
            final(state).subs.wf(),
            final(state).observer == old(state).observer,
            final(state).subs.next_id_spec() == old(state).subs.next_id_spec(),
            old(state).winner is None ==> {
                &&& r.0
                &&& final(state).winner == Some(self.index)
                &&& forall|x: usize| r.1@.contains(x) <==> old(state).subs@.contains(x) && x != self.index
                &&& final(state).subs@ == if old(state).subs@.contains(self.index) {
                    Set::<usize>::empty().insert(self.index)
                } else {
                    Set::<usize>::empty()
                }
            },
            old(state).winner matches Some(w) ==> {
                &&& r.0 == (w == self.index)
                &&& r.1@.len() == 0
                &&& final(state).winner == old(state).winner
                &&& final(state).subs@ == old(state).subs@
            },
    {
        match state.winner {
            None => {
                state.winner = Some(self.index);
                let own = state.subs.contains(self.index);
                state.subs.remove(self.index);
                let cancelled = state.subs.unsubscribe_all();
                if own {
                    state.subs.insert(self.index);
                }
                proof {
                    assert(final(state).subs@ =~= if old(state).subs@.contains(self.index) {
                        Set::<usize>::empty().insert(self.index)
                    } else {
                        Set::<usize>::empty()
                    });
                }
                (true, cancelled)
            },
            Some(w) => (w == self.index, Vec::new()),
        }
    }

    /// The winner's items are mirrored.
    pub fn next<Item, E>(&self, state: &mut RaceAllState, value: Item) -> (r: RaceAllOutcome<Item, E>)
        requires
            old(state).subs.wf(),
        ensures
            final(state).subs.next_id_spec() == old(state).subs.next_id_spec(),
            final(state).subs.wf(),
            chunk_ok(old(state).observer, r.out@, final(state).observer),
            final(state).observer == old(state).observer,
            final(state).winner == Some(if old(state).winner is None { self.index } else { old(state).winner->0 }),
            old(state).winner is Some ==> r.cancelled@.len() == 0 && final(state).subs@ == old(state).subs@,
            old(state).winner is None ==> forall|x: usize| r.cancelled@.contains(x) <==> old(state).subs@.contains(x) && x != self.index,
            old(state).winner is None ==> final(state).subs@ == if old(state).subs@.contains(self.index) {
                Set::<usize>::empty().insert(self.index)
            } else {
                Set::<usize>::empty()
            },
            r.out@ == if final(state).winner == Some(self.index) && old(state).observer {
                seq![Notification::<Item, E>::Next(value)]
            } else {
                Seq::empty()
            },
    {
        let (won, cancelled) = self.claim(state);
        let out = if won && state.observer {
            emit_one(Notification::Next(value))
        } else {
            Vec::new()
        };
        RaceAllOutcome { out, cancelled }
    }

    /// The winner's error is mirrored.
    pub fn error<Item, E>(self, state: &mut RaceAllState, err: E) -> (r: RaceAllOutcome<Item, E>)
        requires
            old(state).subs.wf(),
        ensures
            final(state).subs.next_id_spec() == old(state).subs.next_id_spec(),
            final(state).subs.wf(),
            chunk_ok(old(state).observer, r.out@, final(state).observer),
            final(state).winner == Some(if old(state).winner is None { self.index } else { old(state).winner->0 }),
            old(state).winner is Some ==> r.cancelled@.len() == 0 && final(state).subs@ == old(state).subs@,
            old(state).winner is None ==> forall|x: usize| r.cancelled@.contains(x) <==> old(state).subs@.contains(x) && x != self.index,
            old(state).winner is None ==> final(state).subs@ == if old(state).subs@.contains(self.index) {
                Set::<usize>::empty().insert(self.index)
            } else {
                Set::<usize>::empty()
            },
            final(state).winner == Some(self.index) ==> !final(state).observer
                && r.out@ == if old(state).observer { seq![Notification::<Item, E>::Error(err)] } else { Seq::empty() },
            final(state).winner != Some(self.index) ==> final(state).observer == old(state).observer && r.out@.len() == 0,
    {
        let (won, cancelled) = self.claim(state);
        let out = if won && state.observer {
            state.observer = false;
            emit_one(Notification::Error(err))
        } else {
            Vec::new()
        };
        RaceAllOutcome { out, cancelled }
    }

    /// The winner's completion is mirrored.
    pub fn complete<Item, E>(self, state: &mut RaceAllState) -> (r: RaceAllOutcome<Item, E>)
        requires
            old(state).subs.wf(),
        ensures
            final(state).subs.next_id_spec() == old(state).subs.next_id_spec(),
            final(state).subs.wf(),
            chunk_ok(old(state).observer, r.out@, final(state).observer),
            final(state).winner == Some(if old(state).winner is None { self.index } else { old(state).winner->0 }),
            old(state).winner is Some ==> r.cancelled@.len() == 0 && final(state).subs@ == old(state).subs@,
            old(state).winner is None ==> forall|x: usize| r.cancelled@.contains(x) <==> old(state).subs@.contains(x) && x != self.index,
            old(state).winner is None ==> final(state).subs@ == if old(state).subs@.contains(self.index) {
                Set::<usize>::empty().insert(self.index)
            } else {
                Set::<usize>::empty()
            },
            final(state).winner == Some(self.index) ==> !final(state).observer
                && r.out@ == if old(state).observer { seq![Notification::<Item, E>::Complete] } else { Seq::empty() },
            final(state).winner != Some(self.index) ==> final(state).observer == old(state).observer && r.out@.len() == 0,
    {
        let (won, cancelled) = self.claim(state);
        let out = if won && state.observer {
            state.observer = false;
            emit_one(Notification::Complete)
        } else {
            Vec::new()
        };
        RaceAllOutcome { out, cancelled }
    }

    /// Closed once another source won, the result terminated, or the
    /// downstream closed itself.
    pub fn is_closed(&self, state: &RaceAllState, downstream_closed: bool) -> (b: bool)
        ensures
            b == ((state.winner is Some && state.winner != Some(self.index)) || !state.observer || downstream_closed),
    {
        let lost = match state.winner {
            Some(w) => w != self.index,
            None => false,
        };
        lost || !state.observer || downstream_closed
    }
}

/// The winner after events from the given sources, in order, reached a
/// fresh race: each event claims the race for its source unless it is
/// already won.
pub open spec fn race_winner_after(indices: Seq<usize>) -> Option<usize>
    decreases indices.len(),
{
    if indices.len() == 0 {
        None
    } else {
        match race_winner_after(indices.drop_last()) {
            None => Some(indices.last()),
            Some(w) => Some(w),
        }
    }
}

/// Among any number of sources, the first to emit wins for good: after
/// any run of events, the winner is the source of the first event, so only
/// its events are mirrored and every other source was cancelled by that
/// first event.
pub proof fn lemma_first_source_to_emit_wins(indices: Seq<usize>)
    requires
        indices.len() > 0,
    ensures
        race_winner_after(indices) == Some(indices[0]),
    decreases indices.len(),
{
    if indices.len() > 1 {
        lemma_first_source_to_emit_wins(indices.drop_last());
        assert(indices.drop_last()[0] == indices[0]);
    } else {
        assert(race_winner_after(indices.drop_last()) == None::<usize>);
        assert(indices.last() == indices[0]);
    }
}

} // verus!
