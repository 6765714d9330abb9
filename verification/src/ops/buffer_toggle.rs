//! BufferToggle: opens a buffer for every item of an `openings` observable
//! and closes each with its own closing observable; buffers may overlap.
use crate::notification::{Notification, chunk_ok, emit_one, next_vec_of};
use crate::subscriptions::DynamicSubscriptions;
use vstd::prelude::*;

verus! {

/// Overlapping buffers driven by openings and closings.
///
/// Every item from `openings` starts a buffer, closed when
/// `closing_selector(opening_item)` emits or completes. Source items go into
/// every open buffer. Source completion emits the open buffers in opening
/// order.
pub struct BufferToggle<S, Op, F> {
    pub source: S,
    pub openings: Op,
    pub closing_selector: F,
}

/// State shared by every observer of the operator.
pub struct BufferToggleState<Item> {
    /// The downstream observer is still attached.
    pub observer: bool,
    /// The open buffers, in opening order, each with its id.
    pub buffers: Vec<(usize, Vec<Item>)>,
    /// The closing subscriptions held, by buffer id.
    pub subs: DynamicSubscriptions,
}

/// The open buffers as ids and item sequences.
pub open spec fn buffers_view<Item>(bs: Seq<(usize, Vec<Item>)>) -> Seq<(usize, Seq<Item>)> {
    bs.map_values(|b: (usize, Vec<Item>)| (b.0, b.1@))
}

/// Whether a buffer with this id is open.
pub open spec fn has_buffer<Item>(bs: Seq<(usize, Vec<Item>)>, id: usize) -> bool {
    exists|i: int| 0 <= i < bs.len() && (#[trigger] bs[i]).0 == id
}

impl<Item> BufferToggleState<Item> {
    /// Buffer ids are distinct and were handed out by `subs`.
    pub open spec fn wf(&self) -> bool {
        &&& self.subs.wf()
        &&& forall|i: int, j: int| 0 <= i < j < self.buffers@.len() ==> (#[trigger] self.buffers@[i]).0 != (#[trigger] self.buffers@[j]).0
        &&& forall|i: int| 0 <= i < self.buffers@.len() ==> (#[trigger] self.buffers@[i]).0 < self.subs.next_id_spec()
    }

    /// Position of the open buffer with this id.
    fn position(&self, id: usize) -> (p: Option<usize>)
        ensures
            p is None ==> !has_buffer(self.buffers@, id),
            p matches Some(k) ==> k < self.buffers@.len() && self.buffers@[k as int].0 == id,
    {
        let mut i: usize = 0;
        while i < self.buffers.len()
            invariant
                i <= self.buffers@.len(),
                forall|k: int| 0 <= k < i ==> (#[trigger] self.buffers@[k]).0 != id,
            decreases self.buffers@.len() - i,
        {
            if self.buffers[i].0 == id {
                return Some(i);
            }
            i = i + 1;
        }
        None
    }

    /// Closes the buffer with this id, if open, and emits it.
    pub fn close<E>(&mut self, id: usize) -> (out: Vec<Notification<Vec<Item>, E>>)
        requires
            old(self).wf(),
        ensures
            final(self).subs.next_id_spec() == old(self).subs.next_id_spec(),
            final(self).wf(),
            chunk_ok(old(self).observer, out@, final(self).observer),
            final(self).observer == old(self).observer,
            final(self).subs == old(self).subs,
            !has_buffer(old(self).buffers@, id) ==> out@.len() == 0 && final(self).buffers@ == old(self).buffers@,
            forall|k: int| 0 <= k < old(self).buffers@.len() && (#[trigger] old(self).buffers@[k]).0 == id ==> {
                &&& final(self).buffers@ == old(self).buffers@.remove(k)
                &&& out@ == if old(self).observer { seq![Notification::<Vec<Item>, E>::Next(old(self).buffers@[k].1)] } else { Seq::empty() }
            },
    {
        let pos = self.position(id);
        match pos {
            None => Vec::new(),
            Some(p) => {
                let (_, buffer) = self.buffers.remove(p);
                assert forall|i: int, j: int| 0 <= i < j < self.buffers@.len() implies (#[trigger] self.buffers@[i]).0 != (#[trigger] self.buffers@[j]).0 by {
                    let oi = if i < p { i } else { i + 1 };
                    let oj = if j < p { j } else { j + 1 };
                    assert(self.buffers@[i] == old(self).buffers@[oi]);
                    assert(self.buffers@[j] == old(self).buffers@[oj]);
                }
                assert forall|k: int| 0 <= k < old(self).buffers@.len() && (#[trigger] old(self).buffers@[k]).0 == id implies k == p by {
                    if k != p {
                        if k < p {
                            assert(old(self).buffers@[k].0 != old(self).buffers@[p as int].0);
                        } else {
                            assert(old(self).buffers@[p as int].0 != old(self).buffers@[k].0);
                        }
                    }
                }
                if self.observer {
                    emit_one(Notification::Next(buffer))
                } else {
                    Vec::new()
                }
            },
        }
    }

    /// After subscribing the closing observable of buffer `id`: keep its
    /// subscription while the buffer is still open (a closing that fired
    /// synchronously already closed it).
    pub fn keep_closing(&mut self, id: usize) -> (keep: bool)
        requires
            old(self).wf(),
            id < old(self).subs.next_id_spec(),
        ensures
            final(self).wf(),
            keep == has_buffer(old(self).buffers@, id),
            final(self).subs@ == if keep { old(self).subs@.insert(id) } else { old(self).subs@ },
            final(self).subs.next_id_spec() == old(self).subs.next_id_spec(),
            final(self).observer == old(self).observer,
            final(self).buffers == old(self).buffers,
    {
        match self.position(id) {
            Some(_) => {
                self.subs.insert(id);
                true
            },
            None => false,
        }
    }
}

impl<S, Op, F> BufferToggle<S, Op, F> {
    /// Starts the operator: no buffer is open until `openings` emits.
    pub fn subscribe<Item>(&self) -> (r: (BufferToggleState<Item>, ToggleOpeningsObserver, ToggleSourceObserver))
        ensures
            r.0.wf(),
            r.0.observer,
            r.0.buffers@.len() == 0,
            r.0.subs@ == Set::<usize>::empty(),
            r.0.subs.next_id_spec() == 0,
    {
        (
            BufferToggleState { observer: true, buffers: Vec::new(), subs: DynamicSubscriptions::new() },
            ToggleOpeningsObserver {},
            ToggleSourceObserver {},
        )
    }
}

/// Observer for one closing observable.
pub struct ToggleClosingObserver {
    pub id: usize,
}

impl ToggleClosingObserver {
    /// The closing emitted: the buffer is emitted and its subscription
    /// dropped.
    pub fn next<Item, E>(&self, state: &mut BufferToggleState<Item>) -> (out: Vec<Notification<Vec<Item>, E>>)
        requires
            old(state).wf(),
        ensures
            final(state).subs.next_id_spec() == old(state).subs.next_id_spec(),
            final(state).wf(),
            chunk_ok(old(state).observer, out@, final(state).observer),
            final(state).observer == old(state).observer,
            final(state).subs@ == old(state).subs@.remove(self.id),
            !has_buffer(old(state).buffers@, self.id) ==> out@.len() == 0 && final(state).buffers@ == old(state).buffers@,
            forall|k: int| 0 <= k < old(state).buffers@.len() && (#[trigger] old(state).buffers@[k]).0 == self.id ==> {
                &&& final(state).buffers@ == old(state).buffers@.remove(k)
                &&& out@ == if old(state).observer { seq![Notification::<Vec<Item>, E>::Next(old(state).buffers@[k].1)] } else { Seq::empty() }
            },
    {
        let out = state.close(self.id);
        state.subs.remove(self.id);
        out
    }

    /// The closing errored: the error ends the result and cancels every
    /// closing.
    pub fn error<Item, E>(self, state: &mut BufferToggleState<Item>, err: E) -> (out: Vec<Notification<Vec<Item>, E>>)
        requires
            old(state).wf(),
        ensures
            final(state).subs.next_id_spec() == old(state).subs.next_id_spec(),
            final(state).wf(),
            chunk_ok(old(state).observer, out@, final(state).observer),
            out@ == if old(state).observer { seq![Notification::<Vec<Item>, E>::Error(err)] } else { Seq::empty() },
            !final(state).observer,
            final(state).subs@ == Set::<usize>::empty(),
            final(state).buffers == old(state).buffers,
    {
        state.subs.remove(self.id);
        let out = if state.observer {
            state.observer = false;
            emit_one(Notification::Error(err))
        } else {
            Vec::new()
        };
        let _ = state.subs.unsubscribe_all();
        out
    }

    /// The closing completed: it closes the buffer as an emission would.
    pub fn complete<Item, E>(self, state: &mut BufferToggleState<Item>) -> (out: Vec<Notification<Vec<Item>, E>>)
        requires
            old(state).wf(),
        ensures
            final(state).subs.next_id_spec() == old(state).subs.next_id_spec(),
            final(state).wf(),
            chunk_ok(old(state).observer, out@, final(state).observer),
            final(state).observer == old(state).observer,
            final(state).subs@ == old(state).subs@.remove(self.id),
            !has_buffer(old(state).buffers@, self.id) ==> out@.len() == 0 && final(state).buffers@ == old(state).buffers@,
            forall|k: int| 0 <= k < old(state).buffers@.len() && (#[trigger] old(state).buffers@[k]).0 == self.id ==> {
                &&& final(state).buffers@ == old(state).buffers@.remove(k)
                &&& out@ == if old(state).observer { seq![Notification::<Vec<Item>, E>::Next(old(state).buffers@[k].1)] } else { Seq::empty() }
            },
    {
        let out = state.close(self.id);
        state.subs.remove(self.id);
        out
    }

    /// Closed once its buffer is closed, the result terminated, or the
    /// downstream closed itself.
    pub fn is_closed<Item>(&self, state: &BufferToggleState<Item>, downstream_closed: bool) -> (b: bool)
        ensures
            b == (!state.observer || downstream_closed || !has_buffer(state.buffers@, self.id)),
    {
        !state.observer || downstream_closed || state.position(self.id).is_none()
    }
}

/// Observer for the openings observable.
pub struct ToggleOpeningsObserver {}

impl ToggleOpeningsObserver {
    /// An opening starts an empty buffer with a fresh id; the returned
    /// observer must be subscribed to the closing observable the selector
    /// gives for the opening item. Nothing opens after the result ended.
    pub fn next<Item>(&self, state: &mut BufferToggleState<Item>) -> (o: Option<ToggleClosingObserver>)
        requires
            old(state).wf(),
            old(state).subs.next_id_spec() < usize::MAX,
        ensures
            final(state).wf(),
            !old(state).observer ==> o is None && *final(state) == *old(state),
            old(state).observer ==> {
                let id = old(state).subs.next_id_spec() as usize;
                &&& o == Some(ToggleClosingObserver { id })
                &&& final(state).buffers@.len() == old(state).buffers@.len() + 1
                &&& final(state).buffers@.subrange(0, old(state).buffers@.len() as int) == old(state).buffers@
                &&& final(state).buffers@.last().0 == id
                &&& final(state).buffers@.last().1@.len() == 0
                &&& final(state).observer
                &&& final(state).subs@ == old(state).subs@
                &&& final(state).subs.next_id_spec() == old(state).subs.next_id_spec() + 1
            },
    {
        if !state.observer {
            return None;
        }
        let id = state.subs.reserve_id();
        state.buffers.push((id, Vec::new()));
        assert(state.buffers@.subrange(0, old(state).buffers@.len() as int) =~= old(state).buffers@);
        Some(ToggleClosingObserver { id })
    }

    /// The openings errored: the error ends the result and cancels every
    /// closing.
    pub fn error<Item, E>(self, state: &mut BufferToggleState<Item>, err: E) -> (out: Vec<Notification<Vec<Item>, E>>)
        requires
            old(state).wf(),
        ensures
            final(state).subs.next_id_spec() == old(state).subs.next_id_spec(),
            final(state).wf(),
            chunk_ok(old(state).observer, out@, final(state).observer),
            out@ == if old(state).observer { seq![Notification::<Vec<Item>, E>::Error(err)] } else { Seq::empty() },
            !final(state).observer,
            final(state).subs@ == Set::<usize>::empty(),
            final(state).buffers == old(state).buffers,
    {
        let out = if state.observer {
            state.observer = false;
            emit_one(Notification::Error(err))
        } else {
            Vec::new()
        };
        let _ = state.subs.unsubscribe_all();
        out
    }

    /// The openings ending does not end the buffers already open.
    pub fn complete<Item>(self, state: &BufferToggleState<Item>) {
    }

    /// Closed once the result terminated or the downstream closed itself.
    pub fn is_closed<Item>(&self, state: &BufferToggleState<Item>, downstream_closed: bool) -> (b: bool)
        ensures
            b == (!state.observer || downstream_closed),
    {
        !state.observer || downstream_closed
    }
}

/// Observer for the source. Its terminal events also cancel the openings.
pub struct ToggleSourceObserver {}

impl ToggleSourceObserver {
    /// A clone of the item goes into every open buffer.
    pub fn next<Item: Clone>(&self, state: &mut BufferToggleState<Item>, value: Item)
        requires
            old(state).wf(),
        ensures
            final(state).subs.next_id_spec() == old(state).subs.next_id_spec(),
            final(state).wf(),
            final(state).observer == old(state).observer,
            final(state).subs == old(state).subs,
            received_clones(buffers_view(old(state).buffers@), seq![value], buffers_view(final(state).buffers@)),
    {
        let mut rest: Vec<(usize, Vec<Item>)> = Vec::new();
        std::mem::swap(&mut rest, &mut state.buffers);
        let ghost all = rest@;
        let ghost before = buffers_view(all);
        let mut done: Vec<(usize, Vec<Item>)> = Vec::new();
        while rest.len() > 0
            invariant
                done@.len() + rest@.len() == all.len(),
                rest@ == all.subrange(done@.len() as int, all.len() as int),
                before == buffers_view(all),
                forall|k: int| 0 <= k < done@.len() ==> {
                    &&& (#[trigger] done@[k]).0 == all[k].0
                    &&& done@[k].1@.len() == all[k].1@.len() + 1
                    &&& done@[k].1@.drop_last() == all[k].1@
                    &&& vstd::pervasive::cloned(value, done@[k].1@.last())
                },
            decreases rest@.len(),
        {
            let (id, mut buffer) = rest.remove(0);
            let ghost k = done@.len() as int;
            assert(all[k] == (id, buffer));
            buffer.push(value.clone());
            done.push((id, buffer));
            assert(rest@ =~= all.subrange(done@.len() as int, all.len() as int));
        }
        state.buffers = done;
        let ghost after = buffers_view(state.buffers@);
        assert forall|k: int| 0 <= k < before.len() implies {
            &&& (#[trigger] after[k]).0 == before[k].0
            &&& after[k].1.len() == before[k].1.len() + 1
            &&& after[k].1.subrange(0, before[k].1.len() as int) == before[k].1
            &&& all_cloned(seq![value], after[k].1.subrange(before[k].1.len() as int, after[k].1.len() as int))
        } by {
            assert(state.buffers@[k].1@.drop_last() == all[k].1@);
            assert(after[k].1.subrange(0, before[k].1.len() as int) =~= after[k].1.drop_last());
            assert(after[k].1.subrange(before[k].1.len() as int, after[k].1.len() as int)[0] == after[k].1.last());
        }
        assert forall|i: int, j: int| 0 <= i < j < state.buffers@.len() implies (#[trigger] state.buffers@[i]).0 != (#[trigger] state.buffers@[j]).0 by {
            assert(old(state).buffers@[i].0 != old(state).buffers@[j].0);
        }
        assert forall|i: int| 0 <= i < state.buffers@.len() implies (#[trigger] state.buffers@[i]).0 < state.subs.next_id_spec() by {
            assert(old(state).buffers@[i].0 < old(state).subs.next_id_spec());
        }
    }

    /// The source errored: the error ends the result and cancels every
    /// closing.
    pub fn error<Item, E>(self, state: &mut BufferToggleState<Item>, err: E) -> (out: Vec<Notification<Vec<Item>, E>>)
        requires
            old(state).wf(),
        ensures
            final(state).subs.next_id_spec() == old(state).subs.next_id_spec(),
            final(state).wf(),
            chunk_ok(old(state).observer, out@, final(state).observer),
            out@ == if old(state).observer { seq![Notification::<Vec<Item>, E>::Error(err)] } else { Seq::empty() },
            !final(state).observer,
            final(state).subs@ == Set::<usize>::empty(),
            final(state).buffers == old(state).buffers,
    {
        let out = if state.observer {
            state.observer = false;
            emit_one(Notification::Error(err))
        } else {
            Vec::new()
        };
        let _ = state.subs.unsubscribe_all();
        out
    }

    /// The source completed: the open buffers are emitted in opening order,
    /// then the completion; every closing is cancelled.
    pub fn complete<Item, E>(self, state: &mut BufferToggleState<Item>) -> (out: Vec<Notification<Vec<Item>, E>>)
        requires
            old(state).wf(),
        ensures
            final(state).subs.next_id_spec() == old(state).subs.next_id_spec(),
            final(state).wf(),
            chunk_ok(old(state).observer, out@, final(state).observer),
            !final(state).observer,
            final(state).buffers@.len() == 0,
            final(state).subs@ == Set::<usize>::empty(),
            !old(state).observer ==> out@.len() == 0,
            old(state).observer ==> {
                &&& out@.len() == old(state).buffers@.len() + 1
                &&& forall|k: int| 0 <= k < old(state).buffers@.len() ==> next_vec_of(#[trigger] out@[k], old(state).buffers@[k].1@)
                &&& out@.last() == Notification::<Vec<Item>, E>::Complete
            },
    {
        let mut buffers: Vec<(usize, Vec<Item>)> = Vec::new();
        std::mem::swap(&mut buffers, &mut state.buffers);
        let observer = state.observer;
        state.observer = false;
        let mut out: Vec<Notification<Vec<Item>, E>> = Vec::new();
        if observer {
            let ghost all = buffers@;
            let _total = buffers.len();
            let mut emitted: usize = 0;
            while buffers.len() > 0
                invariant
                    emitted + buffers@.len() == all.len(),
                    all.len() <= usize::MAX,
                    buffers@ == all.subrange(emitted as int, all.len() as int),
                    out@.len() == emitted,
                    forall|k: int| 0 <= k < emitted ==> next_vec_of(#[trigger] out@[k], all[k].1@),
                decreases buffers@.len(),
            {
                let (_, buffer) = buffers.remove(0);
                assert(all[emitted as int].1 == buffer);
                out.push(Notification::Next(buffer));
                emitted = emitted + 1;
                assert(buffers@ =~= all.subrange(emitted as int, all.len() as int));
            }
            out.push(Notification::Complete);
            assert forall|i: int| 0 <= i < out@.len() - 1 implies !(#[trigger] out@[i]).is_terminal() by {
                assert(next_vec_of(out@[i], all[i].1@));
            }
        }
        let _ = state.subs.unsubscribe_all();
        out
    }

    /// Closed once the result terminated or the downstream closed itself.
    pub fn is_closed<Item>(&self, state: &BufferToggleState<Item>, downstream_closed: bool) -> (b: bool)
        ensures
            b == (!state.observer || downstream_closed),
    {
        !state.observer || downstream_closed
    }
}

/// `copies` holds a clone of each of `items`, in order.
pub open spec fn all_cloned<Item: Clone>(items: Seq<Item>, copies: Seq<Item>) -> bool {
    &&& copies.len() == items.len()
    &&& forall|j: int| 0 <= j < items.len() ==> vstd::pervasive::cloned(items[j], #[trigger] copies[j])
}

/// Each open buffer of `after` is the buffer of `before` with the same id,
/// followed by a clone of each of `items`, in order.
pub open spec fn received_clones<Item: Clone>(
    before: Seq<(usize, Seq<Item>)>,
    items: Seq<Item>,
    after: Seq<(usize, Seq<Item>)>,
) -> bool {
    &&& after.len() == before.len()
    &&& forall|k: int| 0 <= k < before.len() ==> {
        &&& (#[trigger] after[k]).0 == before[k].0
        &&& after[k].1.len() == before[k].1.len() + items.len()
        &&& after[k].1.subrange(0, before[k].1.len() as int) == before[k].1
        &&& all_cloned(items, after[k].1.subrange(before[k].1.len() as int, after[k].1.len() as int))
    }
}

/// Every buffer that stays open receives every item that arrives, in
/// arrival order: two runs of items received one after the other are
/// received as the single run made of both.
pub proof fn lemma_open_buffers_receive_every_item<Item: Clone>(
    a: Seq<(usize, Seq<Item>)>,
    xs: Seq<Item>,
    b: Seq<(usize, Seq<Item>)>,
    ys: Seq<Item>,
    c: Seq<(usize, Seq<Item>)>,
)
    requires
        received_clones(a, xs, b),
        received_clones(b, ys, c),
    ensures
        received_clones(a, xs + ys, c),
{
    assert forall|k: int| 0 <= k < a.len() implies {
        &&& (#[trigger] c[k]).0 == a[k].0
        &&& c[k].1.len() == a[k].1.len() + (xs + ys).len()
        &&& c[k].1.subrange(0, a[k].1.len() as int) == a[k].1
        &&& all_cloned(xs + ys, c[k].1.subrange(a[k].1.len() as int, c[k].1.len() as int))
    } by {
        let (bl, ml, cl) = (a[k].1.len() as int, b[k].1.len() as int, c[k].1.len() as int);
        let m = b[k].1;
        let cc = c[k].1;
        assert(b[k].0 == a[k].0);
        assert(m.subrange(0, bl) == a[k].1);
        assert(cc.subrange(0, ml) == m);
        assert(cc.subrange(0, bl) =~= m.subrange(0, bl));
        let tail = cc.subrange(bl, cl);
        let xt = m.subrange(bl, ml);
        let yt = cc.subrange(ml, cl);
        assert(all_cloned(xs, xt));
        assert(all_cloned(ys, yt));
        assert forall|j: int| 0 <= j < (xs + ys).len() implies vstd::pervasive::cloned((xs + ys)[j], #[trigger] tail[j]) by {
            if j < xs.len() {
                assert(tail[j] == cc[bl + j]);
                assert(cc[bl + j] == m[bl + j]);
                assert(xt[j] == m[bl + j]);
                assert(vstd::pervasive::cloned(xs[j], xt[j]));
            } else {
                assert(tail[j] == cc[bl + j]);
                assert(yt[j - xs.len()] == cc[ml + (j - xs.len())]);
                assert(vstd::pervasive::cloned(ys[j - xs.len()], yt[j - xs.len()]));
            }
        }
    }
}

} // verus!
