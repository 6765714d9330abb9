//! FindIndex: emits the zero-based position of the first item matching a
//! predicate.
use crate::notification::{Notification, chunk_ok, emit_last, emit_one};
use vstd::prelude::*;

verus! {

/// Emits the zero-based index of the first match, then completes; completes
/// empty when nothing matches.
pub struct FindIndex<S, F> {
    pub source: S,
    pub predicate: F,
}

/// Observer that counts positions until the predicate matches.
pub struct FindIndexObserver {
    /// The downstream observer is still attached.
    pub observer: bool,
    /// Position of the next item.
    pub index: usize,
}

impl<S, F> FindIndex<S, F> {
    pub fn subscribe(&self) -> (o: FindIndexObserver)
        ensures
            o.observer && o.index == 0,
    {
        FindIndexObserver { observer: true, index: 0 }
    }
}

impl FindIndexObserver {
    /// `matched` is the predicate's verdict on the item.
    pub fn next<E>(&mut self, matched: bool) -> (out: Vec<Notification<usize, E>>)
        requires
            old(self).observer && !matched ==> old(self).index < usize::MAX,
        ensures
            chunk_ok(old(self).observer, out@, final(self).observer),
            (final(self).observer, final(self).index as int) == find_index_step((old(self).observer, old(self).index as int), matched),
            !old(self).observer ==> out@.len() == 0,
            old(self).observer && matched ==> !final(self).observer && final(self).index == old(self).index
                && out@ == seq![Notification::<usize, E>::Next(old(self).index), Notification::Complete],
            old(self).observer && !matched ==> final(self).observer && final(self).index == old(self).index + 1
                && out@.len() == 0,
    {
        if !self.observer {
            return Vec::new();
        }
        if matched {
            self.observer = false;
            emit_last(self.index)
        } else {
            self.index = self.index + 1;
            Vec::new()
        }
    }

    pub fn error<E>(self, err: E) -> (out: Vec<Notification<usize, E>>)
        ensures
            chunk_ok(self.observer, out@, false),
            out@ == if self.observer { seq![Notification::<usize, E>::Error(err)] } else { Seq::empty() },
    {
        if self.observer {
            emit_one(Notification::Error(err))
        } else {
            Vec::new()
        }
    }

    /// Nothing matched: completes empty.
    pub fn complete<E>(self) -> (out: Vec<Notification<usize, E>>)
        ensures
            chunk_ok(self.observer, out@, false),
            out@ == if self.observer { seq![Notification::<usize, E>::Complete] } else { Seq::empty() },
    {
        if self.observer {
            emit_one(Notification::Complete)
        } else {
            Vec::new()
        }
    }

    pub fn is_closed(&self, downstream_closed: bool) -> (b: bool)
        ensures
            b == (!self.observer || downstream_closed),
    {
        !self.observer || downstream_closed
    }
}

/// One step of `find_index` on (attached, next position): a detached
/// observer ignores items; a match detaches it at the current position; a
/// miss moves to the next position.
pub open spec fn find_index_step(state: (bool, int), matched: bool) -> (bool, int) {
    if !state.0 {
        state
    } else if matched {
        (false, state.1)
    } else {
        (true, state.1 + 1)
    }
}

/// The state of a fresh `find_index` observer after the given predicate
/// verdicts, fed in order to `next`.
pub open spec fn find_index_after(verdicts: Seq<bool>) -> (bool, int)
    decreases verdicts.len(),
{
    if verdicts.len() == 0 {
        (true, 0)
    } else {
        find_index_step(find_index_after(verdicts.drop_last()), verdicts.last())
    }
}

/// `find_index` emits the position of the first match: after any run of
/// verdicts, a fresh observer that is still attached has seen no match and
/// counted every item; one that has detached stopped at the first match and
/// emitted its zero-based index.
pub proof fn lemma_find_index_reports_first_match(verdicts: Seq<bool>)
    ensures
        find_index_after(verdicts).0 ==> find_index_after(verdicts).1 == verdicts.len()
            && forall|i: int| 0 <= i < verdicts.len() ==> !#[trigger] verdicts[i],
        !find_index_after(verdicts).0 ==> {
            let k = find_index_after(verdicts).1;
            &&& 0 <= k < verdicts.len()
            &&& verdicts[k]
            &&& forall|i: int| 0 <= i < k ==> !#[trigger] verdicts[i]
        },
    decreases verdicts.len(),
{
    if verdicts.len() > 0 {
        let n = verdicts.len() - 1;
        let vs = verdicts.drop_last();
        lemma_find_index_reports_first_match(vs);
        assert forall|i: int| 0 <= i < vs.len() implies vs[i] == #[trigger] verdicts[i] by {}
    }
}

} // verus!
