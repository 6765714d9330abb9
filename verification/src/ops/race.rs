//! Race: mirrors whichever of two sources emits first and drops the other.
use crate::notification::{Notification, chunk_ok, emit_one};
use vstd::prelude::*;

verus! {

/// Mirrors the first source to emit any event.
///
/// Both sources are subscribed. The first one to emit an item, error, or
/// completion wins; the other is unsubscribed and the winner is mirrored
/// from that event on.
pub struct Race<A, B> {
    pub source_a: A,
    pub source_b: B,
}

/// Which side of the race an observer belongs to.
#[derive(Debug, Clone, Copy, PartialEq, Eq, Structural)]
pub enum RaceSide {
    /// The receiver of `race`
    A,
    /// The argument of `race`
    B,
}

/// State shared by both race observers.
pub struct RaceState {
    /// The downstream observer is still attached.
    pub observer: bool,
    pub winner: Option<RaceSide>,
}

/// Observer for one side of the race.
pub struct RaceObserver {
    pub side: RaceSide,
}

/// What an event of one side does: what it emits, and whether it just won
/// (the other side must then be unsubscribed).
pub struct RaceOutcome<Item, E> {
    pub out: Vec<Notification<Item, E>>,
    pub cancel_other: bool,
}

impl<A, B> Race<A, B> {
    /// Starts the race: the shared state and the observer of side A, which
    /// is subscribed first.
    pub fn subscribe(&self) -> (r: (RaceState, RaceObserver))
        ensures
            r.0.observer && r.0.winner is None,
            r.1.side == RaceSide::A,
    {
        (RaceState { observer: true, winner: None }, RaceObserver { side: RaceSide::A })
    }
}

impl RaceState {
    /// After A was subscribed: B is subscribed only if A has not already won
    /// synchronously; then its observer is returned.
    pub fn observer_for_b(&self) -> (o: Option<RaceObserver>)
        ensures
            o == if self.winner is None { Some(RaceObserver { side: RaceSide::B }) } else { None },
    {
        if self.winner.is_none() {
            Some(RaceObserver { side: RaceSide::B })
        } else {
            None
        }
    }

    /// After B was subscribed: keep its subscription unless A won meanwhile.
    pub fn keep_b(&self) -> (keep: bool)
        ensures
            keep == (self.winner != Some(RaceSide::A)),
    {
        match self.winner {
            Some(RaceSide::A) => false,
            _ => true,
        }
    }
}

impl RaceObserver {
    /// True when this side is, or just became, the winner. Becoming the
    /// winner (second result) requires unsubscribing the other side.
    pub fn claim(&self, state: &mut RaceState) -> (r: (bool, bool))
        ensures
            final(state).observer == old(state).observer,
            old(state).winner is None ==> r == (true, true) && final(state).winner == Some(self.side),
            old(state).winner matches Some(w) ==> r == (w == self.side, false) && final(state).winner == old(state).winner,
    {
        match state.winner {
            None => {
                state.winner = Some(self.side);
                (true, true)
            },
            Some(side) => (side == self.side, false),
        }
    }

    /// The winner's items are mirrored.
    pub fn next<Item, E>(&self, state: &mut RaceState, value: Item) -> (r: RaceOutcome<Item, E>)
        ensures
            chunk_ok(old(state).observer, r.out@, final(state).observer),
            final(state).observer == old(state).observer,
            r.cancel_other == (old(state).winner is None),
            final(state).winner == Some(if old(state).winner is None { self.side } else { old(state).winner->0 }),
            r.out@ == if final(state).winner == Some(self.side) && old(state).observer {
                seq![Notification::<Item, E>::Next(value)]
            } else {
                Seq::empty()
            },
    {
        let (won, cancel_other) = self.claim(state);
        let out = if won && state.observer {
            emit_one(Notification::Next(value))
        } else {
            Vec::new()
        };
        RaceOutcome { out, cancel_other }
    }

    /// The winner's error is mirrored.
    pub fn error<Item, E>(self, state: &mut RaceState, err: E) -> (r: RaceOutcome<Item, E>)
        ensures
            chunk_ok(old(state).observer, r.out@, final(state).observer),
            r.cancel_other == (old(state).winner is None),
            final(state).winner == Some(if old(state).winner is None { self.side } else { old(state).winner->0 }),
            final(state).winner == Some(self.side) ==> !final(state).observer
                && r.out@ == if old(state).observer { seq![Notification::<Item, E>::Error(err)] } else { Seq::empty() },
            final(state).winner != Some(self.side) ==> final(state).observer == old(state).observer && r.out@.len() == 0,
    {
        let (won, cancel_other) = self.claim(state);
        let out = if won && state.observer {
            state.observer = false;
            emit_one(Notification::Error(err))
        } else {
            Vec::new()
        };
        RaceOutcome { out, cancel_other }
    }

    /// The winner's completion is mirrored.
    pub fn complete<Item, E>(self, state: &mut RaceState) -> (r: RaceOutcome<Item, E>)
        ensures
            chunk_ok(old(state).observer, r.out@, final(state).observer),
            r.cancel_other == (old(state).winner is None),
            final(state).winner == Some(if old(state).winner is None { self.side } else { old(state).winner->0 }),
            final(state).winner == Some(self.side) ==> !final(state).observer
                && r.out@ == if old(state).observer { seq![Notification::<Item, E>::Complete] } else { Seq::empty() },
            final(state).winner != Some(self.side) ==> final(state).observer == old(state).observer && r.out@.len() == 0,
    {
        let (won, cancel_other) = self.claim(state);
        let out = if won && state.observer {
            state.observer = false;
            emit_one(Notification::Complete)
        } else {
            Vec::new()
        };
        RaceOutcome { out, cancel_other }
    }

    /// Closed once the other side won, the result terminated, or the
    /// downstream closed itself.
    pub fn is_closed(&self, state: &RaceState, downstream_closed: bool) -> (b: bool)
        ensures
            b == ((state.winner is Some && state.winner != Some(self.side)) || !state.observer || downstream_closed),
    {
        let lost = match state.winner {
            Some(w) => w != self.side,
            None => false,
        };
        lost || !state.observer || downstream_closed
    }
}

/// The winner after events from the given sides, in order, reached a fresh
/// race: each event claims the race for its side unless it is already won.
pub open spec fn winner_after(sides: Seq<RaceSide>) -> Option<RaceSide>
    decreases sides.len(),
{
    if sides.len() == 0 {
        None
    } else {
        match winner_after(sides.drop_last()) {
            None => Some(sides.last()),
            Some(w) => Some(w),
        }
    }
}

/// The first side to emit wins the race for good: after any run of events,
/// the winner is the side of the first event, so only that side's events are
/// ever mirrored and the other side is cancelled exactly once, by that first
/// event.
pub proof fn lemma_first_to_emit_wins(sides: Seq<RaceSide>)
    requires
        sides.len() > 0,
    ensures
        winner_after(sides) == Some(sides[0]),
    decreases sides.len(),
{
    if sides.len() > 1 {
        lemma_first_to_emit_wins(sides.drop_last());
        assert(sides.drop_last()[0] == sides[0]);
    } else {
        assert(winner_after(sides.drop_last()) == None::<RaceSide>);
        assert(sides.last() == sides[0]);
    }
}

} // verus!
