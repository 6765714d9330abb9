//! ForkJoin: waits for every source to complete, then emits their last
//! values.
use crate::notification::{JoinOutcome, Notification, chunk_ok, emit_one, next_vec_of};
use crate::slots::{all_some, empty_slots, slots_full, drain_all, unwrap_all};
use crate::subscriptions::DynamicSubscriptions;
use vstd::prelude::*;

verus! {

/// Emits the last value of every source once all complete.
///
/// Emits one `Vec` holding each source's last value in input order, then
/// completes. If any source completes without emitting, the result completes
/// without emitting. An error from any source is forwarded immediately and
/// the rest are unsubscribed. An empty list completes immediately.
pub struct ForkJoin<O> {
    pub sources: Vec<O>,
}

/// State shared by every fork-join observer.
pub struct ForkJoinState<Item> {
    /// The downstream observer is still attached.
    pub observer: bool,
    /// The last value of each source, by index.
    pub values: Vec<Option<Item>>,
    /// Sources that have not completed.
    pub remaining: usize,
    /// The source subscriptions held, by index.
    pub subs: DynamicSubscriptions,
}

impl<Item> ForkJoinState<Item> {
    /// The join this state holds.
    pub open spec fn model(&self) -> ForkJoinModel<Item> {
        ForkJoinModel { values: self.values@, remaining: self.remaining as nat, attached: self.observer }
    }

    pub open spec fn wf(&self) -> bool {
        &&& self.subs.wf()
        &&& self.observer ==> self.subs.next_id_spec() <= self.values@.len()
    }

    /// Enlists the next source while the observer is attached: it gets the
    /// next index. `None` once the result has already terminated.
    pub fn enlist(&mut self) -> (o: Option<ForkJoinObserver>)
        requires
            old(self).wf(),
            old(self).subs.next_id_spec() < old(self).values@.len(),
        ensures
            final(self).wf(),
            !old(self).observer ==> o is None && *final(self) == *old(self),
            old(self).observer ==> {
                &&& o == Some(ForkJoinObserver { index: old(self).subs.next_id_spec() as usize })
                &&& final(self).subs@ == old(self).subs@
                &&& final(self).subs.next_id_spec() == old(self).subs.next_id_spec() + 1
                &&& final(self).observer == old(self).observer
                &&& final(self).values == old(self).values
                &&& final(self).remaining == old(self).remaining
            },
    {
        if !self.observer {
            return None;
        }
        let _total = self.values.len();
        let id = self.subs.reserve_id();
        Some(ForkJoinObserver { index: id })
    }

    /// After subscribing the source of `index`: keep its subscription, or
    /// (false) cancel it because the result terminated meanwhile.
    pub fn settle(&mut self, index: usize) -> (keep: bool)
        requires
            old(self).wf(),
            index < old(self).subs.next_id_spec(),
        ensures
            final(self).wf(),
            keep == old(self).observer,
            keep ==> final(self).subs@ == old(self).subs@.insert(index),
            !keep ==> final(self).subs@ == old(self).subs@,
            final(self).subs.next_id_spec() == old(self).subs.next_id_spec(),
            final(self).observer == old(self).observer,
            final(self).values == old(self).values,
            final(self).remaining == old(self).remaining,
    {
        if self.observer {
            self.subs.insert(index);
            true
        } else {
            false
        }
    }

    /// Once no source remains: emits the joined values (if every source had
    /// one) and completes.
    fn finish_if_done<E>(&mut self) -> (out: Vec<Notification<Vec<Item>, E>>)
        ensures
            final(self).subs.next_id_spec() == old(self).subs.next_id_spec(),
            chunk_ok(old(self).observer, out@, final(self).observer),
            final(self).values@ == if old(self).remaining == 0 && old(self).observer && all_some(old(self).values@) {
                Seq::empty()
            } else {
                old(self).values@
            },
            final(self).remaining == old(self).remaining,
            final(self).subs == old(self).subs,
            old(self).remaining != 0 || !old(self).observer ==> out@.len() == 0 && final(self).observer == old(self).observer,
            old(self).remaining == 0 && old(self).observer ==> {
                &&& !final(self).observer
                &&& all_some(old(self).values@) ==> out@.len() == 2
                    && next_vec_of(out@[0], unwrap_all(old(self).values@))
                    && out@[1] == Notification::<Vec<Item>, E>::Complete
                &&& !all_some(old(self).values@) ==> out@ == seq![Notification::<Vec<Item>, E>::Complete]
            },
    {
        if self.remaining != 0 || !self.observer {
            return Vec::new();
        }
        self.observer = false;
        let mut out = Vec::new();
        if slots_full(&self.values) {
            out.push(Notification::Next(drain_all(&mut self.values)));
        }
        out.push(Notification::Complete);
        out
    }
}

impl<O> ForkJoin<O> {
    /// Starts the operator: the state for `sources.len()` sources. An empty
    /// list completes at once.
    pub fn subscribe<Item, E>(&self) -> (r: (ForkJoinState<Item>, Vec<Notification<Vec<Item>, E>>))
        ensures
            r.0.wf(),
            r.0.values@.len() == self.sources@.len(),
            forall|i: int| 0 <= i < r.0.values@.len() ==> (#[trigger] r.0.values@[i]) is None,
            r.0.remaining == self.sources@.len(),
            r.0.subs@ == Set::<usize>::empty(),
            r.0.subs.next_id_spec() == 0,
            self.sources@.len() == 0 ==> !r.0.observer && r.1@ == seq![Notification::<Vec<Item>, E>::Complete],
            self.sources@.len() > 0 ==> r.0.observer && r.1@.len() == 0,
    {
        let total = self.sources.len();
        let mut state = ForkJoinState {
            observer: true,
            values: empty_slots(total),
            remaining: total,
            subs: DynamicSubscriptions::new(),
        };
        if total == 0 {
            state.observer = false;
            return (state, emit_one(Notification::Complete));
        }
        (state, Vec::new())
    }
}

/// Observer for one indexed source.
pub struct ForkJoinObserver {
    pub index: usize,
}

impl ForkJoinObserver {
    /// Keeps the source's last value.
    pub fn next<Item>(&self, state: &mut ForkJoinState<Item>, value: Item)
        requires
            old(state).observer ==> self.index < old(state).values@.len(),
        ensures
            final(state).model() == fork_join_step::<Item, ()>(old(state).model(), (self.index, Some(value))).0,
            final(state).subs.next_id_spec() == old(state).subs.next_id_spec(),
            old(state).observer ==> *final(state) == (ForkJoinState {
                values: final(state).values,
                ..*old(state)
            }) && final(state).values@ == old(state).values@.update(self.index as int, Some(value)),
            !old(state).observer ==> *final(state) == *old(state),
    {
        if state.observer {
            state.values.set(self.index, Some(value));
        }
    }

    /// Forwards the error and cancels the other sources.
    pub fn error<Item, E>(self, state: &mut ForkJoinState<Item>, err: E) -> (r: JoinOutcome<Vec<Item>, E>)
        requires
            old(state).wf(),
        ensures
            final(state).subs.next_id_spec() == old(state).subs.next_id_spec(),
            final(state).wf(),
            chunk_ok(old(state).observer, r.out@, final(state).observer),
            r.out@ == if old(state).observer { seq![Notification::<Vec<Item>, E>::Error(err)] } else { Seq::empty() },
            !final(state).observer,
            final(state).subs@ == Set::<usize>::empty(),
            final(state).values == old(state).values,
            final(state).remaining == old(state).remaining,
            forall|x: usize| r.cancelled@.contains(x) <==> old(state).subs@.remove(self.index).contains(x),
    {
        state.subs.remove(self.index);
        let out = if state.observer {
            state.observer = false;
            emit_one(Notification::Error(err))
        } else {
            Vec::new()
        };
        let cancelled = state.subs.unsubscribe_all();
        JoinOutcome { out, cancelled }
    }

    /// A source that completes without a value ends the join empty;
    /// otherwise the join finishes once no source remains.
    pub fn complete<Item, E>(self, state: &mut ForkJoinState<Item>) -> (r: JoinOutcome<Vec<Item>, E>)
        requires
            old(state).wf(),
            old(state).observer ==> self.index < old(state).values@.len() && old(state).remaining > 0,
        ensures
            (final(state).model(), joined_view(r.out@)) == fork_join_step::<Item, E>(old(state).model(), (self.index, None)),
            final(state).subs.next_id_spec() == old(state).subs.next_id_spec(),
            final(state).wf(),
            chunk_ok(old(state).observer, r.out@, final(state).observer),
            final(state).values@ == if old(state).observer && old(state).remaining == 1 && all_some(old(state).values@) {
                Seq::empty()
            } else {
                old(state).values@
            },
            !old(state).observer ==> {
                &&& r.out@.len() == 0
                &&& !final(state).observer
                &&& final(state).remaining == old(state).remaining
                &&& final(state).subs@ == old(state).subs@.remove(self.index)
            },
            old(state).observer && old(state).values@[self.index as int] is None ==> {
                &&& r.out@ == seq![Notification::<Vec<Item>, E>::Complete]
                &&& !final(state).observer
                &&& final(state).remaining == old(state).remaining
                &&& final(state).subs@ == Set::<usize>::empty()
            },
            old(state).observer && old(state).values@[self.index as int] is Some ==> {
                &&& final(state).remaining == old(state).remaining - 1
                &&& final(state).subs@ == old(state).subs@.remove(self.index)
                &&& old(state).remaining > 1 ==> final(state).observer && r.out@.len() == 0
                &&& old(state).remaining == 1 ==> !final(state).observer && {
                    &&& all_some(old(state).values@) ==> r.out@.len() == 2
                        && next_vec_of(r.out@[0], unwrap_all(old(state).values@))
                        && r.out@[1] == Notification::<Vec<Item>, E>::Complete
                    &&& !all_some(old(state).values@) ==> r.out@ == seq![Notification::<Vec<Item>, E>::Complete]
                }
            },
            old(state).observer && old(state).values@[self.index as int] is None ==> forall|x: usize|
                r.cancelled@.contains(x) <==> old(state).subs@.remove(self.index).contains(x),
            !(old(state).observer && old(state).values@[self.index as int] is None) ==> r.cancelled@.len() == 0,
    {
        state.subs.remove(self.index);
        if !state.observer {
            return JoinOutcome { out: Vec::new(), cancelled: Vec::new() };
        }
        if state.values[self.index].is_none() {
            state.observer = false;
            let cancelled = state.subs.unsubscribe_all();
            return JoinOutcome { out: emit_one(Notification::Complete), cancelled };
        }
        state.remaining = state.remaining - 1;
        JoinOutcome { out: state.finish_if_done(), cancelled: Vec::new() }
    }

    /// Closed once the result terminated or the downstream closed itself.
    pub fn is_closed<Item>(&self, state: &ForkJoinState<Item>, downstream_closed: bool) -> (b: bool)
        ensures
            b == (!state.observer || downstream_closed),
    {
        !state.observer || downstream_closed
    }
}

/// What a join emitted, with each emitted vector taken by its items.
pub open spec fn joined_view<Item, E>(out: Seq<Notification<Vec<Item>, E>>) -> Seq<Notification<Seq<Item>, E>> {
    out.map_values(
        |n: Notification<Vec<Item>, E>|
            match n {
                Notification::Next(v) => Notification::Next(v@),
                Notification::Error(e) => Notification::Error(e),
                Notification::Complete => Notification::Complete,
            },
    )
}

/// The join as the whole-run law sees it.
pub struct ForkJoinModel<Item> {
    pub values: Seq<Option<Item>>,
    pub remaining: nat,
    pub attached: bool,
}

/// An event of one source, by index: an item, or (`None`) its completion.
pub type SourceEvent<Item> = (usize, Option<Item>);

/// What one event does to the join, and what it emits.
pub open spec fn fork_join_step<Item, E>(m: ForkJoinModel<Item>, ev: SourceEvent<Item>) -> (
    ForkJoinModel<Item>,
    Seq<Notification<Seq<Item>, E>>,
) {
    let i = ev.0 as int;
    if !m.attached {
        (m, Seq::empty())
    } else if ev.1 is Some {
        (ForkJoinModel { values: m.values.update(i, ev.1), ..m }, Seq::empty())
    } else if m.values[i] is None {
        (ForkJoinModel { attached: false, ..m }, seq![Notification::Complete])
    } else if m.remaining > 1 {
        (ForkJoinModel { remaining: (m.remaining - 1) as nat, ..m }, Seq::empty())
    } else if all_some(m.values) {
        (
            ForkJoinModel { values: Seq::empty(), remaining: 0, attached: false },
            seq![Notification::Next(unwrap_all(m.values)), Notification::Complete],
        )
    } else {
        (ForkJoinModel { remaining: 0, attached: false, ..m }, seq![Notification::Complete])
    }
}

/// The join of `n` sources after a run of events from a fresh
/// subscription, and everything it emitted.
pub open spec fn fork_join_run<Item, E>(n: nat, events: Seq<SourceEvent<Item>>) -> (
    ForkJoinModel<Item>,
    Seq<Notification<Seq<Item>, E>>,
)
    decreases events.len(),
{
    if events.len() == 0 {
        (
            ForkJoinModel { values: Seq::new(n, |i: int| None), remaining: n, attached: n > 0 },
            if n == 0 { seq![Notification::Complete] } else { Seq::empty() },
        )
    } else {
        let (m, out) = fork_join_run::<Item, E>(n, events.drop_last());
        let (m2, more) = fork_join_step::<Item, E>(m, events.last());
        (m2, out + more)
    }
}

/// The last item source `i` emitted during a run, if any.
pub open spec fn source_last<Item>(events: Seq<SourceEvent<Item>>, i: int) -> Option<Item>
    decreases events.len(),
{
    if events.len() == 0 {
        None
    } else if events.last().0 == i && events.last().1 is Some {
        events.last().1
    } else {
        source_last(events.drop_last(), i)
    }
}

/// Whether source `i` completed during a run.
pub open spec fn source_ended<Item>(events: Seq<SourceEvent<Item>>, i: int) -> bool
    decreases events.len(),
{
    if events.len() == 0 {
        false
    } else {
        source_ended(events.drop_last(), i) || (events.last().0 == i && events.last().1 is None)
    }
}

/// A run of `n` sources that obeys the grammar on each source: every event
/// names a source, and nothing comes from a source after its completion.
pub open spec fn sources_well_formed<Item>(n: nat, events: Seq<SourceEvent<Item>>) -> bool
    decreases events.len(),
{
    events.len() == 0 || {
        &&& sources_well_formed(n, events.drop_last())
        &&& events.last().0 < n
        &&& !source_ended(events.drop_last(), events.last().0 as int)
    }
}

/// How many completions a run holds.
pub open spec fn completions<Item>(events: Seq<SourceEvent<Item>>) -> nat
    decreases events.len(),
{
    if events.len() == 0 {
        0
    } else {
        completions(events.drop_last()) + if events.last().1 is None { 1nat } else { 0nat }
    }
}

/// The sources of `n` that completed during a run.
pub open spec fn ended_set<Item>(n: nat, events: Seq<SourceEvent<Item>>) -> Set<int> {
    Set::new(|i: int| 0 <= i < n && source_ended(events, i))
}

/// What a join of `n` sources emits once every source completed: one vector
/// of each source's last value in input order, then the completion; or only
/// the completion when there is no source or one source emitted nothing.
pub open spec fn fork_join_result<Item, E>(n: nat, events: Seq<SourceEvent<Item>>) -> Seq<Notification<Seq<Item>, E>> {
    let lasts = Seq::new(n, |i: int| source_last(events, i));
    if n > 0 && all_some(lasts) {
        seq![Notification::Next(unwrap_all(lasts)), Notification::Complete]
    } else {
        seq![Notification::Complete]
    }
}

proof fn lemma_ended_set_counts<Item>(n: nat, events: Seq<SourceEvent<Item>>)
    requires
        sources_well_formed(n, events),
    ensures
        ended_set(n, events).finite(),
        ended_set(n, events).len() == completions(events),
        ended_set(n, events).subset_of(vstd::set_lib::set_int_range(0, n as int)),
    decreases events.len(),
{
    vstd::set_lib::lemma_int_range(0, n as int);
    if events.len() == 0 {
        assert(ended_set(n, events) =~= Set::<int>::empty());
    } else {
        let p = events.drop_last();
        lemma_ended_set_counts(n, p);
        let i = events.last().0 as int;
        if events.last().1 is None {
            assert(!ended_set(n, p).contains(i));
            assert(ended_set(n, events) =~= ended_set(n, p).insert(i));
        } else {
            assert(ended_set(n, events) =~= ended_set(n, p));
        }
    }
    vstd::set_lib::lemma_len_subset(ended_set(n, events), vstd::set_lib::set_int_range(0, n as int));
}

/// All `n` sources completed exactly when the run holds `n` completions.
proof fn lemma_all_ended_iff_count<Item>(n: nat, events: Seq<SourceEvent<Item>>)
    requires
        sources_well_formed(n, events),
    ensures
        (forall|i: int| 0 <= i < n ==> #[trigger] source_ended(events, i)) <==> completions(events) == n,
{
    lemma_ended_set_counts(n, events);
    let r = vstd::set_lib::set_int_range(0, n as int);
    vstd::set_lib::lemma_int_range(0, n as int);
    if forall|i: int| 0 <= i < n ==> #[trigger] source_ended(events, i) {
        assert(ended_set(n, events) =~= r);
    }
    if completions(events) == n {
        vstd::set_lib::lemma_subset_equality(ended_set(n, events), r);
        assert forall|i: int| 0 <= i < n implies #[trigger] source_ended(events, i) by {
            assert(r.contains(i));
            assert(ended_set(n, events).contains(i));
        }
    }
}


/// What a run keeps: while attached, the slots hold each source's last
/// item, one source is left per missing completion, and every completed
/// source emitted; once detached, the join emitted only the completion (no
/// source, or a source that completed without emitting), or the full result
/// after every source completed.
proof fn lemma_fork_join_run_invariant<Item, E>(n: nat, events: Seq<SourceEvent<Item>>)
    requires
        sources_well_formed(n, events),
    ensures
        ({
            let (m, out) = fork_join_run::<Item, E>(n, events);
            &&& m.attached ==> {
                &&& out.len() == 0
                &&& m.values.len() == n
                &&& forall|i: int| 0 <= i < n ==> #[trigger] m.values[i] == source_last(events, i)
                &&& m.remaining + completions(events) == n
                &&& m.remaining > 0
                &&& forall|i: int| 0 <= i < n && #[trigger] source_ended(events, i) ==> source_last(events, i) is Some
            }
            &&& !m.attached ==> {
                ||| n == 0 && out == seq![Notification::<Seq<Item>, E>::Complete]
                ||| out == seq![Notification::<Seq<Item>, E>::Complete] && exists|i: int|
                    0 <= i < n && #[trigger] source_ended(events, i) && source_last(events, i) is None
                ||| out == fork_join_result::<Item, E>(n, events) && forall|i: int|
                    0 <= i < n ==> #[trigger] source_ended(events, i)
            }
        }),
    decreases events.len(),
{
    if events.len() == 0 {
        return;
    }
    let p = events.drop_last();
    let ev = events.last();
    let j = ev.0 as int;
    lemma_fork_join_run_invariant::<Item, E>(n, p);
    let (m, out) = fork_join_run::<Item, E>(n, p);
    let (m2, more) = fork_join_step::<Item, E>(m, ev);
    assert(fork_join_run::<Item, E>(n, events) == (m2, out + more));
    assert(!source_ended(p, j));
    assert forall|i: int| i != j implies source_last(events, i) == source_last(p, i)
        && source_ended(events, i) == source_ended(p, i) by {}
    if !m.attached {
        assert(out + more =~= out);
        if n == 0 {
        } else if out == seq![Notification::<Seq<Item>, E>::Complete] && exists|i: int|
            0 <= i < n && #[trigger] source_ended(p, i) && source_last(p, i) is None {
            let w = choose|i: int| 0 <= i < n && #[trigger] source_ended(p, i) && source_last(p, i) is None;
            assert(w != j);
            assert(source_ended(events, w) && source_last(events, w) is None);
        } else {
            assert(source_ended(p, j));
        }
    } else if ev.1 is Some {
        assert forall|i: int| 0 <= i < n implies #[trigger] m2.values[i] == source_last(events, i) by {}
        assert forall|i: int| 0 <= i < n && #[trigger] source_ended(events, i) implies source_last(events, i) is Some by {
            if i != j {
                assert(source_ended(p, i));
            }
        }
        assert(out + more =~= out);
    } else if m.values[j] is None {
        assert(source_ended(events, j) && source_last(events, j) is None);
        assert(out + more =~= seq![Notification::<Seq<Item>, E>::Complete]);
    } else if m.remaining > 1 {
        assert forall|i: int| 0 <= i < n implies #[trigger] m2.values[i] == source_last(events, i) by {}
        assert forall|i: int| 0 <= i < n && #[trigger] source_ended(events, i) implies source_last(events, i) is Some by {
            if i != j {
                assert(source_ended(p, i));
            }
        }
        assert(out + more =~= out);
    } else {
        lemma_all_ended_iff_count(n, events);
        assert(completions(events) == n);
        let lasts = Seq::new(n, |i: int| source_last(events, i));
        assert forall|i: int| 0 <= i < n implies (#[trigger] m.values[i]) is Some by {
            assert(source_ended(events, i));
            if i != j {
                assert(source_ended(p, i));
            }
        }
        assert(lasts =~= m.values);
        assert(all_some(m.values));
        assert(out + more =~= fork_join_result::<Item, E>(n, events));
    }
}

/// Whatever the interleaving of its sources' events (without errors), a
/// join emits at most one item, always followed by the completion; once
/// every source completed it has emitted exactly the last value of each
/// source in input order and completed, or only completed when there is no
/// source or a source completed without emitting.
pub proof fn lemma_fork_join_emits_once<Item, E>(n: nat, events: Seq<SourceEvent<Item>>)
    requires
        sources_well_formed(n, events),
    ensures
        ({
            let out = fork_join_run::<Item, E>(n, events).1;
            ||| out.len() == 0
            ||| out == seq![Notification::<Seq<Item>, E>::Complete]
            ||| out.len() == 2 && out[0] is Next && out[1] == Notification::<Seq<Item>, E>::Complete
        }),
        (forall|i: int| 0 <= i < n ==> #[trigger] source_ended(events, i)) ==> fork_join_run::<Item, E>(n, events).1
            == fork_join_result::<Item, E>(n, events),
{
    lemma_fork_join_run_invariant::<Item, E>(n, events);
    lemma_all_ended_iff_count(n, events);
    let (m, out) = fork_join_run::<Item, E>(n, events);
    if forall|i: int| 0 <= i < n ==> #[trigger] source_ended(events, i) {
        if !m.attached && out == seq![Notification::<Seq<Item>, E>::Complete] && exists|i: int|
            0 <= i < n && #[trigger] source_ended(events, i) && source_last(events, i) is None {
            let w = choose|i: int| 0 <= i < n && #[trigger] source_ended(events, i) && source_last(events, i) is None;
            let lasts = Seq::new(n, |i: int| source_last(events, i));
            assert(lasts[w] is None);
        }
    }
}

} // verus!
