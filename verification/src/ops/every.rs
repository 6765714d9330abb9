//! Every: emits `true` if every item satisfies a predicate, or `false` as
//! soon as one item does not.
use crate::notification::{Notification, chunk_ok, emit_last, emit_one};
use vstd::prelude::*;

verus! {

/// Checks whether every item satisfies a predicate.
///
/// Emits `false` and completes as soon as one item fails the predicate,
/// unsubscribing from the source. Emits `true` when the source completes and
/// every item passed. An empty source emits `true`.
pub struct Every<S, F> {
    pub source: S,
    pub predicate: F,
}

/// Observer that short-circuits on the first failure.
pub struct EveryObserver {
    /// The downstream observer is still attached.
    pub observer: bool,
}

impl<S, F> Every<S, F> {
    pub fn subscribe(&self) -> (o: EveryObserver)
        ensures
            o.observer,
    {
        EveryObserver { observer: true }
    }
}

impl EveryObserver {
    /// `passed` is the predicate's verdict on the item.
    pub fn next<E>(&mut self, passed: bool) -> (out: Vec<Notification<bool, E>>)
        ensures
            chunk_ok(old(self).observer, out@, final(self).observer),
            final(self).observer == (old(self).observer && passed),
            out@ == if old(self).observer && !passed {
                seq![Notification::<bool, E>::Next(false), Notification::Complete]
            } else {
                Seq::empty()
            },
    {
        if !self.observer {
            return Vec::new();
        }
        if !passed {
            self.observer = false;
            emit_last(false)
        } else {
            Vec::new()
        }
    }

    pub fn error<E>(self, err: E) -> (out: Vec<Notification<bool, E>>)
        ensures
            chunk_ok(self.observer, out@, false),
            out@ == if self.observer { seq![Notification::<bool, E>::Error(err)] } else { Seq::empty() },
    {
        if self.observer {
            emit_one(Notification::Error(err))
        } else {
            Vec::new()
        }
    }

    /// Every item passed: emits `true`.
    pub fn complete<E>(self) -> (out: Vec<Notification<bool, E>>)
        ensures
            chunk_ok(self.observer, out@, false),
            out@ == if self.observer { seq![Notification::<bool, E>::Next(true), Notification::Complete] } else { Seq::empty() },
    {
        if self.observer {
            emit_last(true)
        } else {
            Vec::new()
        }
    }

    pub fn is_closed(&self, downstream_closed: bool) -> (b: bool)
        ensures
            b == (!self.observer || downstream_closed),
    {
        !self.observer || downstream_closed
    }
}

/// Whether a fresh `every` observer is still attached after the given
/// predicate verdicts, fed in order to `next`.
pub open spec fn attached_after(verdicts: Seq<bool>) -> bool
    decreases verdicts.len(),
{
    if verdicts.len() == 0 {
        true
    } else {
        attached_after(verdicts.drop_last()) && verdicts.last()
    }
}

/// `every` answers whether all items passed: a fresh observer fed the
/// predicate's verdicts stays attached (so that its completion emits `true`)
/// exactly when every verdict was `true`; otherwise it emitted `false` and
/// completed at the first failure.
pub proof fn lemma_every_answers_whether_all_passed(verdicts: Seq<bool>)
    ensures
        attached_after(verdicts) == (forall|i: int| 0 <= i < verdicts.len() ==> #[trigger] verdicts[i]),
    decreases verdicts.len(),
{
    if verdicts.len() > 0 {
        let n = verdicts.len() - 1;
        let vs = verdicts.drop_last();
        lemma_every_answers_whether_all_passed(vs);
        if attached_after(verdicts) {
            assert forall|i: int| 0 <= i < verdicts.len() implies #[trigger] verdicts[i] by {
                if i < n {
                    assert(vs[i] == verdicts[i]);
                }
            }
        } else if attached_after(vs) {
            assert(!verdicts[n]);
        } else {
            let j = choose|j: int| 0 <= j < vs.len() && !#[trigger] vs[j];
            assert(!verdicts[j]);
        }
    }
}

} // verus!
