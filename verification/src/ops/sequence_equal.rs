//! SequenceEqual: compares two observables item by item and emits one
//! `bool`.
use std::collections::VecDeque;
use crate::notification::{Notification, chunk_ok, emit_last, emit_one};
use vstd::prelude::*;

verus! {

/// Emits whether two sources emit equal sequences.
///
/// Items are compared pairwise. Emits `false` and completes at the first
/// mismatch, or when one side completes while the other still has unmatched
/// items. Emits `true` when both complete with every item matched; two empty
/// sources are equal.
pub struct SequenceEqual<A, B> {
    pub source_a: A,
    pub source_b: B,
}

/// State shared by both sides.
pub struct SequenceEqualState<Item> {
    /// The downstream observer is still attached.
    pub observer: bool,
    /// Items of A not yet matched against B.
    pub buffer_a: VecDeque<Item>,
    /// Items of B not yet matched against A.
    pub buffer_b: VecDeque<Item>,
    pub done_a: bool,
    pub done_b: bool,
}

/// The comparison as far as the buffers allow: the verdict (`Some(false)`
/// on a mismatch or a side that ended short, `Some(true)` when both ended
/// and matched, `None` while undecided) and the buffers left unmatched.
pub open spec fn verdict_spec<Item>(a: Seq<Item>, b: Seq<Item>, done_a: bool, done_b: bool) -> (Option<bool>, Seq<Item>, Seq<Item>)
    decreases a.len(),
{
    if a.len() > 0 && b.len() > 0 {
        if a[0] != b[0] {
            (Some(false), a, b)
        } else {
            verdict_spec(a.drop_first(), b.drop_first(), done_a, done_b)
        }
    } else if done_a && done_b {
        (Some(a.len() == 0 && b.len() == 0), a, b)
    } else if done_a && a.len() == 0 && b.len() > 0 {
        (Some(false), a, b)
    } else if done_b && b.len() == 0 && a.len() > 0 {
        (Some(false), a, b)
    } else {
        (None, a, b)
    }
}

/// Once both sides have ended, the verdict is whether they emitted equal
/// sequences.
pub proof fn lemma_verdict_when_both_done<Item>(a: Seq<Item>, b: Seq<Item>)
    ensures
        verdict_spec(a, b, true, true).0 == Some(a == b),
    decreases a.len(),
{
    if a.len() > 0 && b.len() > 0 {
        if a[0] != b[0] {
            assert(a[0] != b[0]);
        } else {
            lemma_verdict_when_both_done(a.drop_first(), b.drop_first());
            if a.drop_first() == b.drop_first() {
                assert(a =~= seq![a[0]] + a.drop_first());
                assert(b =~= seq![b[0]] + b.drop_first());
            } else {
                if a == b {
                    assert(a.drop_first() =~= b.drop_first());
                }
            }
        }
    } else {
        if a.len() == 0 && b.len() == 0 {
            assert(a =~= b);
        } else {
            assert(a.len() != b.len());
        }
    }
}

/// `full` is how a stream that has emitted `prefix` so far can end up:
/// `prefix` followed by more items, or exactly `prefix` once it ended.
pub open spec fn extends<Item>(prefix: Seq<Item>, full: Seq<Item>, ended: bool) -> bool {
    &&& prefix.len() <= full.len()
    &&& full.subrange(0, prefix.len() as int) == prefix
    &&& ended ==> full == prefix
}

/// A verdict `v` is settled by what the two sides emitted so far: however
/// they go on, `v` says whether they emit equal sequences.
pub open spec fn settled<Item>(a: Seq<Item>, b: Seq<Item>, done_a: bool, done_b: bool, v: bool) -> bool {
    forall|fa: Seq<Item>, fb: Seq<Item>|
        #![trigger extends(a, fa, done_a), extends(b, fb, done_b)]
        extends(a, fa, done_a) && extends(b, fb, done_b) ==> v == (fa == fb)
}

/// A verdict, once reached, is final: after a common prefix `c`, a verdict
/// on the unmatched items is settled for the whole sequences.
proof fn lemma_verdict_is_settled<Item>(c: Seq<Item>, a: Seq<Item>, b: Seq<Item>, done_a: bool, done_b: bool)
    requires
        verdict_spec(a, b, done_a, done_b).0 is Some,
    ensures
        settled(c + a, c + b, done_a, done_b, verdict_spec(a, b, done_a, done_b).0->0),
    decreases a.len(),
{
    let v = verdict_spec(a, b, done_a, done_b).0->0;
    if a.len() > 0 && b.len() > 0 {
        if a[0] != b[0] {
            assert forall|fa: Seq<Item>, fb: Seq<Item>|
                extends(c + a, fa, done_a) && extends(c + b, fb, done_b) implies v == (fa == fb) by {
                assert(fa[c.len() as int] == (c + a)[c.len() as int]);
                assert(fb[c.len() as int] == (c + b)[c.len() as int]);
            }
        } else {
            let c2 = c.push(a[0]);
            assert(c + a == c2 + a.drop_first());
            assert(c + b == c2 + b.drop_first());
            lemma_verdict_is_settled(c2, a.drop_first(), b.drop_first(), done_a, done_b);
        }
    } else {
        assert forall|fa: Seq<Item>, fb: Seq<Item>|
            extends(c + a, fa, done_a) && extends(c + b, fb, done_b) implies v == (fa == fb) by {
            if a.len() == 0 && b.len() == 0 {
                if done_a && done_b {
                    assert(fa == fb);
                }
            } else if a.len() == 0 {
                assert(fa == c + a);
                assert(fb.len() > fa.len());
            } else {
                assert(fb == c + b);
                assert(fa.len() > fb.len());
            }
        }
    }
}

/// Without a verdict, comparing only dropped a matched prefix: the
/// unmatched items are what follows a common prefix of both sides.
proof fn lemma_undecided_drops_common_prefix<Item>(a: Seq<Item>, b: Seq<Item>, done_a: bool, done_b: bool)
    requires
        verdict_spec(a, b, done_a, done_b).0 is None,
    ensures
        ({
            let (_, ra, rb) = verdict_spec(a, b, done_a, done_b);
            let k = a.len() - ra.len();
            &&& ra.len() <= a.len()
            &&& b.len() - rb.len() == k
            &&& a.subrange(k, a.len() as int) == ra
            &&& b.subrange(k, b.len() as int) == rb
            &&& a.subrange(0, k) == b.subrange(0, k)
            &&& !(done_a && done_b)
            &&& verdict_spec(ra, rb, done_a, done_b) == verdict_spec(a, b, done_a, done_b)
        }),
    decreases a.len(),
{
    if a.len() > 0 && b.len() > 0 {
        let (a1, b1) = (a.drop_first(), b.drop_first());
        lemma_undecided_drops_common_prefix(a1, b1, done_a, done_b);
        let (_, ra, rb) = verdict_spec(a1, b1, done_a, done_b);
        let k1 = a1.len() - ra.len();
        assert(a.subrange(k1 + 1, a.len() as int) == a1.subrange(k1, a1.len() as int));
        assert(b.subrange(k1 + 1, b.len() as int) == b1.subrange(k1, b1.len() as int));
        assert(a.subrange(0, k1 + 1) == seq![a[0]] + a1.subrange(0, k1));
        assert(b.subrange(0, k1 + 1) == seq![b[0]] + b1.subrange(0, k1));
    } else {
        assert(a.subrange(0, a.len() as int) == a);
        assert(b.subrange(0, b.len() as int) == b);
        assert(a.subrange(0, 0) == b.subrange(0, 0));
    }
}

/// The two sides can still turn out equal: some way both can go on gives
/// equal sequences.
pub open spec fn can_still_be_equal<Item>(a: Seq<Item>, b: Seq<Item>, done_a: bool, done_b: bool) -> bool {
    exists|fa: Seq<Item>, fb: Seq<Item>|
        #![trigger extends(a, fa, done_a), extends(b, fb, done_b)]
        extends(a, fa, done_a) && extends(b, fb, done_b) && fa == fb
}

/// The two sides can still turn out different.
pub open spec fn can_still_differ<Item>(a: Seq<Item>, b: Seq<Item>, done_a: bool, done_b: bool) -> bool {
    exists|fa: Seq<Item>, fb: Seq<Item>|
        #![trigger extends(a, fa, done_a), extends(b, fb, done_b)]
        extends(a, fa, done_a) && extends(b, fb, done_b) && fa != fb
}

proof fn lemma_extends_prepend<Item>(x: Item, t: Seq<Item>, f: Seq<Item>, d: bool)
    requires
        extends(t, f, d),
    ensures
        extends(seq![x] + t, seq![x] + f, d),
{
    assert((seq![x] + f).subrange(0, (seq![x] + t).len() as int) =~= seq![x] + f.subrange(0, t.len() as int));
}

proof fn lemma_extends_self<Item>(t: Seq<Item>, d: bool)
    ensures
        extends(t, t, d),
{
    assert(t.subrange(0, t.len() as int) =~= t);
}

proof fn lemma_extends_push<Item>(t: Seq<Item>, x: Item)
    ensures
        extends(t, t.push(x), false),
{
    assert(t.push(x).subrange(0, t.len() as int) =~= t);
}

/// The comparison decides exactly when the outcome is decided: a verdict is
/// reached as soon as what both sides emitted so far settles whether they
/// are equal, and it says which; the comparison waits only while the sides
/// can still turn out either equal or different. In particular, once one
/// side completed with nothing unmatched while the other holds an unmatched
/// item, the verdict is `false` at once.
pub proof fn lemma_verdict_exactly_when_decided<Item>(a: Seq<Item>, b: Seq<Item>, done_a: bool, done_b: bool)
    ensures
        verdict_spec(a, b, done_a, done_b).0 matches Some(v) ==> settled(a, b, done_a, done_b, v),
        verdict_spec(a, b, done_a, done_b).0 is None ==> can_still_be_equal(a, b, done_a, done_b) && can_still_differ(
            a,
            b,
            done_a,
            done_b,
        ),
        done_a && a.len() == 0 && b.len() > 0 ==> verdict_spec(a, b, done_a, done_b).0 == Some(false),
        done_b && b.len() == 0 && a.len() > 0 ==> verdict_spec(a, b, done_a, done_b).0 == Some(false),
    decreases a.len(),
{
    let v = verdict_spec(a, b, done_a, done_b).0;
    if v is Some {
        lemma_verdict_is_settled(Seq::<Item>::empty(), a, b, done_a, done_b);
        assert(Seq::<Item>::empty() + a =~= a);
        assert(Seq::<Item>::empty() + b =~= b);
        lemma_extends_self(a, done_a);
        lemma_extends_self(b, done_b);
    } else if a.len() > 0 && b.len() > 0 {
        let (a1, b1) = (a.drop_first(), b.drop_first());
        lemma_verdict_exactly_when_decided(a1, b1, done_a, done_b);
        let (fa, fb) = choose|fa: Seq<Item>, fb: Seq<Item>|
            #![trigger extends(a1, fa, done_a), extends(b1, fb, done_b)]
            extends(a1, fa, done_a) && extends(b1, fb, done_b) && fa == fb;
        lemma_extends_prepend(a[0], a1, fa, done_a);
        lemma_extends_prepend(b[0], b1, fb, done_b);
        assert(seq![a[0]] + a1 =~= a);
        assert(seq![b[0]] + b1 =~= b);
        assert(extends(a, seq![a[0]] + fa, done_a) && extends(b, seq![b[0]] + fb, done_b));
        let (ga, gb) = choose|fa: Seq<Item>, fb: Seq<Item>|
            #![trigger extends(a1, fa, done_a), extends(b1, fb, done_b)]
            extends(a1, fa, done_a) && extends(b1, fb, done_b) && fa != fb;
        lemma_extends_prepend(a[0], a1, ga, done_a);
        lemma_extends_prepend(b[0], b1, gb, done_b);
        assert(extends(a, seq![a[0]] + ga, done_a) && extends(b, seq![b[0]] + gb, done_b));
        assert((seq![a[0]] + ga).drop_first() =~= ga);
        assert((seq![b[0]] + gb).drop_first() =~= gb);
        assert(seq![a[0]] + ga != seq![b[0]] + gb);
    } else {
        let x = vstd::pervasive::arbitrary::<Item>();
        lemma_extends_self(a, done_a);
        lemma_extends_self(b, done_b);
        if a.len() == 0 && b.len() == 0 {
            assert(a =~= b);
            assert(b.subrange(0, 0) =~= a);
            assert(extends(a, b, done_a));
            if !done_a {
                lemma_extends_push(a, x);
                assert(a.push(x) != b);
                assert(extends(a, a.push(x), done_a));
            } else {
                lemma_extends_push(b, x);
                assert(a != b.push(x));
                assert(extends(b, b.push(x), done_b));
            }
        } else if a.len() == 0 {
            assert(b.subrange(0, 0) =~= a);
            assert(extends(a, b, done_a));
            lemma_extends_push(b, x);
            assert(b.push(x).subrange(0, 0) =~= a);
            assert(extends(a, b.push(x), done_a));
            assert(b.push(x) != b);
        } else {
            assert(a.subrange(0, 0) =~= b);
            assert(extends(b, a, done_b));
            lemma_extends_push(a, x);
            assert(a.push(x).subrange(0, 0) =~= b);
            assert(extends(b, a.push(x), done_b));
            assert(a.push(x) != a);
        }
    }
    if done_a && a.len() == 0 && b.len() > 0 {
        lemma_extends_self(a, done_a);
        lemma_extends_self(b, done_b);
        if v is None {
            let (fa, fb) = choose|fa: Seq<Item>, fb: Seq<Item>|
                #![trigger extends(a, fa, done_a), extends(b, fb, done_b)]
                extends(a, fa, done_a) && extends(b, fb, done_b) && fa == fb;
            assert(fb.len() >= b.len());
        }
        assert(a != b);
    }
    if done_b && b.len() == 0 && a.len() > 0 {
        lemma_extends_self(a, done_a);
        lemma_extends_self(b, done_b);
        if v is None {
            let (fa, fb) = choose|fa: Seq<Item>, fb: Seq<Item>|
                #![trigger extends(a, fa, done_a), extends(b, fb, done_b)]
                extends(a, fa, done_a) && extends(b, fb, done_b) && fa == fb;
            assert(fa.len() >= a.len());
        }
        assert(a != b);
    }
}

impl<Item> SequenceEqualState<Item> {
    /// The comparison this state holds.
    pub open spec fn model(&self) -> SequenceEqualModel<Item> {
        SequenceEqualModel {
            a: self.buffer_a@,
            b: self.buffer_b@,
            done_a: self.done_a,
            done_b: self.done_b,
            attached: self.observer,
        }
    }
}

impl<Item: PartialEq> SequenceEqualState<Item> {
    /// Compares as far as both buffers allow, dropping the matched items.
    /// Exact when `Item`'s `==` agrees with equality of values (as it does
    /// for integers, `bool`, `char` and strings).
    pub fn verdict(&mut self) -> (v: Option<bool>)
        ensures
            vstd::laws_eq::obeys_concrete_eq::<Item>() ==> (v, final(self).buffer_a@, final(self).buffer_b@)
                == verdict_spec(old(self).buffer_a@, old(self).buffer_b@, old(self).done_a, old(self).done_b),
            final(self).observer == old(self).observer,
            final(self).done_a == old(self).done_a,
            final(self).done_b == old(self).done_b,
    {
        proof {
            reveal(vstd::laws_eq::obeys_concrete_eq);
        }
        while self.buffer_a.len() > 0 && self.buffer_b.len() > 0
            invariant
                vstd::laws_eq::obeys_concrete_eq::<Item>() ==> verdict_spec(self.buffer_a@, self.buffer_b@, self.done_a, self.done_b)
                    == verdict_spec(old(self).buffer_a@, old(self).buffer_b@, old(self).done_a, old(self).done_b),
                self.observer == old(self).observer,
                self.done_a == old(self).done_a,
                self.done_b == old(self).done_b,
            decreases self.buffer_a@.len(),
        {
            proof {
                reveal(vstd::laws_eq::obeys_concrete_eq);
            }
            if self.buffer_a[0] != self.buffer_b[0] {
                return Some(false);
            }
            let _ = self.buffer_a.pop_front();
            let _ = self.buffer_b.pop_front();
        }
        match (self.done_a, self.done_b) {
            (true, true) => Some(self.buffer_a.len() == 0 && self.buffer_b.len() == 0),
            (true, false) => if self.buffer_a.len() == 0 && self.buffer_b.len() > 0 {
                Some(false)
            } else {
                None
            },
            (false, true) => if self.buffer_b.len() == 0 && self.buffer_a.len() > 0 {
                Some(false)
            } else {
                None
            },
            (false, false) => None,
        }
    }
}

/// The shape of what a comparison step reports, whatever `==` does: either
/// no verdict yet (nothing emitted, nothing cancelled, the observer as it
/// was) or a verdict, emitted as one boolean then the completion when the
/// observer was attached, which ends the comparison and cancels the other
/// side.
pub open spec fn verdict_reported<E>(
    open_before: bool,
    out: Seq<Notification<bool, E>>,
    cancel_other: bool,
    open_after: bool,
) -> bool {
    &&& !cancel_other ==> out.len() == 0 && open_after == open_before
    &&& cancel_other ==> !open_after && (if open_before {
        out.len() == 2 && out[0] is Next && out[1] is Complete
    } else {
        out.len() == 0
    })
}

/// Which side an observer feeds.
#[derive(Clone, Copy)]
pub enum Side {
    /// The receiver of `sequence_equal`
    A,
    /// The argument of `sequence_equal`
    B,
}

/// Observer for one side.
pub struct SequenceEqualObserver {
    pub side: Side,
}

/// What an event of one side does: what it emits, and whether the other
/// side must be unsubscribed (the comparison ended).
pub struct SequenceEqualOutcome<E> {
    pub out: Vec<Notification<bool, E>>,
    pub cancel_other: bool,
}

impl<A, B> SequenceEqual<A, B> {
    /// Starts the comparison: the shared state and the observer of A, which
    /// is subscribed first.
    pub fn subscribe<Item>(&self) -> (r: (SequenceEqualState<Item>, SequenceEqualObserver))
        ensures
            r.0.observer && !r.0.done_a && !r.0.done_b,
            r.0.buffer_a@.len() == 0 && r.0.buffer_b@.len() == 0,
            r.1.side is A,
    {
        (
            SequenceEqualState {
                observer: true,
                buffer_a: VecDeque::new(),
                buffer_b: VecDeque::new(),
                done_a: false,
                done_b: false,
            },
            SequenceEqualObserver { side: Side::A },
        )
    }
}

impl<Item> SequenceEqualState<Item> {
    /// After A was subscribed: B is subscribed only if A alone did not decide
    /// the outcome (for example by erroring); then its observer is returned.
    pub fn observer_for_b(&self) -> (o: Option<SequenceEqualObserver>)
        ensures
            self.observer ==> (o matches Some(obs) && obs.side is B),
            !self.observer ==> o is None,
    {
        if self.observer {
            Some(SequenceEqualObserver { side: Side::B })
        } else {
            None
        }
    }
}

impl SequenceEqualObserver {
    /// Emits the verdict, if there is one, and ends the comparison.
    pub fn settle<Item: PartialEq, E>(&self, state: &mut SequenceEqualState<Item>) -> (r: SequenceEqualOutcome<E>)
        ensures
            chunk_ok(old(state).observer, r.out@, final(state).observer),
            verdict_reported(old(state).observer, r.out@, r.cancel_other, final(state).observer),
            final(state).done_a == old(state).done_a,
            final(state).done_b == old(state).done_b,
            vstd::laws_eq::obeys_concrete_eq::<Item>() ==> ({
                let (v, a, b) = verdict_spec(old(state).buffer_a@, old(state).buffer_b@, old(state).done_a, old(state).done_b);
                &&& final(state).buffer_a@ == a
                &&& final(state).buffer_b@ == b
                &&& final(state).done_a == old(state).done_a
                &&& final(state).done_b == old(state).done_b
                &&& r.cancel_other == (v is Some)
                &&& v is None ==> final(state).observer == old(state).observer && r.out@.len() == 0
                &&& v matches Some(equal) ==> !final(state).observer && r.out@ == if old(state).observer {
                    seq![Notification::<bool, E>::Next(equal), Notification::Complete]
                } else {
                    Seq::empty()
                }
            }),
    {
        let verdict = state.verdict();
        match verdict {
            Some(equal) => {
                let attached = state.observer;
                state.observer = false;
                let out = if attached { emit_last(equal) } else { Vec::new() };
                SequenceEqualOutcome { out, cancel_other: true }
            },
            None => SequenceEqualOutcome { out: Vec::new(), cancel_other: false },
        }
    }

    /// Buffers the item on its side and compares.
    pub fn next<Item: PartialEq, E>(&self, state: &mut SequenceEqualState<Item>, value: Item) -> (r: SequenceEqualOutcome<E>)
        ensures
            chunk_ok(old(state).observer, r.out@, final(state).observer),
            verdict_reported(old(state).observer, r.out@, r.cancel_other, final(state).observer),
            !old(state).observer ==> r.out@.len() == 0 && !r.cancel_other,
            final(state).done_a == old(state).done_a,
            final(state).done_b == old(state).done_b,
            vstd::laws_eq::obeys_concrete_eq::<Item>() ==> (final(state).model(), r.out@)
                == sequence_equal_step::<Item, E>(old(state).model(), (self.side, Some(value))),
            old(state).observer && vstd::laws_eq::obeys_concrete_eq::<Item>() ==> ({
                let a = match self.side { Side::A => old(state).buffer_a@.push(value), Side::B => old(state).buffer_a@ };
                let b = match self.side { Side::A => old(state).buffer_b@, Side::B => old(state).buffer_b@.push(value) };
                let (v, ra, rb) = verdict_spec(a, b, old(state).done_a, old(state).done_b);
                &&& final(state).buffer_a@ == ra
                &&& final(state).buffer_b@ == rb
                &&& final(state).done_a == old(state).done_a
                &&& final(state).done_b == old(state).done_b
                &&& r.cancel_other == (v is Some)
                &&& v is None ==> final(state).observer && r.out@.len() == 0
                &&& v matches Some(equal) ==> !final(state).observer
                    && r.out@ == seq![Notification::<bool, E>::Next(equal), Notification::Complete]
            }),
    {
        if !state.observer {
            return SequenceEqualOutcome { out: Vec::new(), cancel_other: false };
        }
        match self.side {
            Side::A => state.buffer_a.push_back(value),
            Side::B => state.buffer_b.push_back(value),
        }
        self.settle(state)
    }

    /// Forwards the error and cancels the other side.
    pub fn error<Item, E>(self, state: &mut SequenceEqualState<Item>, err: E) -> (r: SequenceEqualOutcome<E>)
        ensures
            chunk_ok(old(state).observer, r.out@, final(state).observer),
            r.out@ == if old(state).observer { seq![Notification::<bool, E>::Error(err)] } else { Seq::empty() },
            r.cancel_other,
            !final(state).observer,
            final(state).buffer_a == old(state).buffer_a,
            final(state).buffer_b == old(state).buffer_b,
            final(state).done_a == old(state).done_a,
            final(state).done_b == old(state).done_b,
    {
        let out = if state.observer {
            state.observer = false;
            emit_one(Notification::Error(err))
        } else {
            Vec::new()
        };
        SequenceEqualOutcome { out, cancel_other: true }
    }

    /// Marks its side done and compares.
    pub fn complete<Item: PartialEq, E>(self, state: &mut SequenceEqualState<Item>) -> (r: SequenceEqualOutcome<E>)
        ensures
            chunk_ok(old(state).observer, r.out@, final(state).observer),
            verdict_reported(old(state).observer, r.out@, r.cancel_other, final(state).observer),
            !old(state).observer ==> r.out@.len() == 0 && !r.cancel_other,
            old(state).observer ==> final(state).done_a == (old(state).done_a || self.side is A)
                && final(state).done_b == (old(state).done_b || self.side is B),
            vstd::laws_eq::obeys_concrete_eq::<Item>() ==> (final(state).model(), r.out@)
                == sequence_equal_step::<Item, E>(old(state).model(), (self.side, None)),
            old(state).observer && vstd::laws_eq::obeys_concrete_eq::<Item>() ==> ({
                let da = old(state).done_a || self.side is A;
                let db = old(state).done_b || self.side is B;
                let (v, ra, rb) = verdict_spec(old(state).buffer_a@, old(state).buffer_b@, da, db);
                &&& final(state).buffer_a@ == ra
                &&& final(state).buffer_b@ == rb
                &&& final(state).done_a == da
                &&& final(state).done_b == db
                &&& r.cancel_other == (v is Some)
                &&& v is None ==> final(state).observer && r.out@.len() == 0
                &&& v matches Some(equal) ==> !final(state).observer
                    && r.out@ == seq![Notification::<bool, E>::Next(equal), Notification::Complete]
            }),
    {
        if !state.observer {
            return SequenceEqualOutcome { out: Vec::new(), cancel_other: false };
        }
        match self.side {
            Side::A => state.done_a = true,
            Side::B => state.done_b = true,
        }
        self.settle(state)
    }

    /// Closed once the comparison ended or the downstream closed itself.
    pub fn is_closed<Item>(&self, state: &SequenceEqualState<Item>, downstream_closed: bool) -> (b: bool)
        ensures
            b == (!state.observer || downstream_closed),
    {
        !state.observer || downstream_closed
    }
}

/// The comparison as the whole-run law sees it: the unmatched items of each
/// side, whether each side ended, and whether the downstream is attached.
pub struct SequenceEqualModel<Item> {
    pub a: Seq<Item>,
    pub b: Seq<Item>,
    pub done_a: bool,
    pub done_b: bool,
    pub attached: bool,
}

/// An event of one side: an item, or (`None`) its completion.
pub type SideEvent<Item> = (Side, Option<Item>);

/// What one event does to the comparison, and what it emits: the item is
/// buffered (or its side marked ended) and compared; a verdict is emitted
/// once and detaches the downstream; once detached, events do nothing.
pub open spec fn sequence_equal_step<Item, E>(m: SequenceEqualModel<Item>, ev: SideEvent<Item>) -> (
    SequenceEqualModel<Item>,
    Seq<Notification<bool, E>>,
) {
    if !m.attached {
        (m, Seq::empty())
    } else {
        let a = if ev.0 is A && ev.1 is Some { m.a.push(ev.1->0) } else { m.a };
        let b = if ev.0 is B && ev.1 is Some { m.b.push(ev.1->0) } else { m.b };
        let da = m.done_a || (ev.0 is A && ev.1 is None);
        let db = m.done_b || (ev.0 is B && ev.1 is None);
        let (v, ra, rb) = verdict_spec(a, b, da, db);
        match v {
            None => (SequenceEqualModel { a: ra, b: rb, done_a: da, done_b: db, attached: true }, Seq::empty()),
            Some(eq) => (
                SequenceEqualModel { a: ra, b: rb, done_a: da, done_b: db, attached: false },
                seq![Notification::Next(eq), Notification::Complete],
            ),
        }
    }
}

/// The comparison after a run of events from a fresh subscription, and
/// everything it emitted.
pub open spec fn sequence_equal_run<Item, E>(events: Seq<SideEvent<Item>>) -> (
    SequenceEqualModel<Item>,
    Seq<Notification<bool, E>>,
)
    decreases events.len(),
{
    if events.len() == 0 {
        (SequenceEqualModel { a: Seq::empty(), b: Seq::empty(), done_a: false, done_b: false, attached: true }, Seq::empty())
    } else {
        let (m, out) = sequence_equal_run::<Item, E>(events.drop_last());
        let (m2, more) = sequence_equal_step::<Item, E>(m, events.last());
        (m2, out + more)
    }
}

/// The items one side emitted during a run, in order.
pub open spec fn side_items<Item>(events: Seq<SideEvent<Item>>, side: Side) -> Seq<Item>
    decreases events.len(),
{
    if events.len() == 0 {
        Seq::empty()
    } else if events.last().0 == side && events.last().1 is Some {
        side_items(events.drop_last(), side).push(events.last().1->0)
    } else {
        side_items(events.drop_last(), side)
    }
}

/// Whether one side completed during a run.
pub open spec fn side_ended<Item>(events: Seq<SideEvent<Item>>, side: Side) -> bool
    decreases events.len(),
{
    if events.len() == 0 {
        false
    } else {
        side_ended(events.drop_last(), side) || (events.last().0 == side && events.last().1 is None)
    }
}

/// A run that obeys the grammar on each side: nothing from a side after its
/// completion.
pub open spec fn sides_well_formed<Item>(events: Seq<SideEvent<Item>>) -> bool
    decreases events.len(),
{
    events.len() == 0 || (sides_well_formed(events.drop_last()) && !side_ended(events.drop_last(), events.last().0))
}

proof fn lemma_settled_persists<Item>(
    a: Seq<Item>,
    b: Seq<Item>,
    da: bool,
    db: bool,
    a2: Seq<Item>,
    b2: Seq<Item>,
    da2: bool,
    db2: bool,
    v: bool,
)
    requires
        settled(a, b, da, db, v),
        da ==> a2 == a && da2,
        db ==> b2 == b && db2,
        a.len() <= a2.len() && a2.subrange(0, a.len() as int) == a,
        b.len() <= b2.len() && b2.subrange(0, b.len() as int) == b,
    ensures
        settled(a2, b2, da2, db2, v),
{
    assert forall|fa: Seq<Item>, fb: Seq<Item>|
        #![trigger extends(a2, fa, da2), extends(b2, fb, db2)]
        extends(a2, fa, da2) && extends(b2, fb, db2) implies v == (fa == fb) by {
        assert(fa.subrange(0, a.len() as int) == fa.subrange(0, a2.len() as int).subrange(0, a.len() as int));
        assert(fb.subrange(0, b.len() as int) == fb.subrange(0, b2.len() as int).subrange(0, b.len() as int));
        assert(extends(a, fa, da));
        assert(extends(b, fb, db));
    }
}

/// What a run keeps: while attached, the unmatched items follow a common
/// prefix of both sides and the run is undecided; once detached, it emitted
/// one settled verdict and the completion.
#[verifier::spinoff_prover]
#[verifier::rlimit(40)]
proof fn lemma_run_invariant<Item, E>(events: Seq<SideEvent<Item>>)
    requires
        sides_well_formed(events),
    ensures
        ({
            let (m, out) = sequence_equal_run::<Item, E>(events);
            let pa = side_items(events, Side::A);
            let pb = side_items(events, Side::B);
            let da = side_ended(events, Side::A);
            let db = side_ended(events, Side::B);
            let k = pa.len() - m.a.len();
            &&& m.attached ==> {
                &&& out.len() == 0
                &&& m.done_a == da && m.done_b == db
                &&& !(da && db)
                &&& m.a.len() <= pa.len()
                &&& pb.len() - m.b.len() == k
                &&& pa.subrange(k, pa.len() as int) == m.a
                &&& pb.subrange(k, pb.len() as int) == m.b
                &&& pa.subrange(0, k) == pb.subrange(0, k)
            }
            &&& !m.attached ==> {
                &&& out.len() == 2
                &&& out[1] == Notification::<bool, E>::Complete
                &&& out[0] matches Notification::Next(v) && settled(pa, pb, da, db, v)
            }
        }),
    decreases events.len(),
{
    if events.len() == 0 {
        return;
    }
    let p = events.drop_last();
    let ev = events.last();
    lemma_run_invariant::<Item, E>(p);
    let (m, out) = sequence_equal_run::<Item, E>(p);
    let (pa, pb) = (side_items(p, Side::A), side_items(p, Side::B));
    let (da, db) = (side_ended(p, Side::A), side_ended(p, Side::B));
    let (pa2, pb2) = (side_items(events, Side::A), side_items(events, Side::B));
    let (da2, db2) = (side_ended(events, Side::A), side_ended(events, Side::B));
    assert(!side_ended(p, ev.0));
    assert(pa.len() <= pa2.len() && pa2.subrange(0, pa.len() as int) =~= pa);
    assert(pb.len() <= pb2.len() && pb2.subrange(0, pb.len() as int) =~= pb);
    if !m.attached {
        let v = out[0]->Next_0;
        lemma_settled_persists(pa, pb, da, db, pa2, pb2, da2, db2, v);
        assert(sequence_equal_run::<Item, E>(events).1 =~= out);
    } else {
        let k = pa.len() - m.a.len();
        let c = pa.subrange(0, k);
        let a = if ev.0 is A && ev.1 is Some { m.a.push(ev.1->0) } else { m.a };
        let b = if ev.0 is B && ev.1 is Some { m.b.push(ev.1->0) } else { m.b };
        assert(pa == c + m.a);
        assert(pb == c + m.b);
        assert(pa2 =~= c + a);
        assert(pb2 =~= c + b);
        let (v, ra, rb) = verdict_spec(a, b, da2, db2);
        if v is Some {
            lemma_verdict_is_settled(c, a, b, da2, db2);
            let (m2, more) = sequence_equal_step::<Item, E>(m, ev);
            assert(sequence_equal_run::<Item, E>(events).1 =~= more);
        } else {
            lemma_undecided_drops_common_prefix(a, b, da2, db2);
            let j = a.len() - ra.len();
            let k2 = pa2.len() - ra.len();
            assert(k2 == k + j);
            assert(pa2.subrange(k2, pa2.len() as int) =~= a.subrange(j, a.len() as int));
            assert(pb2.subrange(k2, pb2.len() as int) =~= b.subrange(j, b.len() as int));
            assert(pa2.subrange(0, k2) =~= c + a.subrange(0, j));
            assert(pb2.subrange(0, k2) =~= c + b.subrange(0, j));
            assert(sequence_equal_run::<Item, E>(events).1 =~= out);
        }
    }
}

/// Two sources that each emit a finite sequence and then complete, in any
/// interleaving, give exactly one item, whether the sequences are equal,
/// followed by the completion.
pub proof fn lemma_sequence_equal_reports_once<Item, E>(events: Seq<SideEvent<Item>>)
    requires
        sides_well_formed(events),
        side_ended(events, Side::A),
        side_ended(events, Side::B),
    ensures
        sequence_equal_run::<Item, E>(events).1 == seq![
            Notification::<bool, E>::Next(side_items(events, Side::A) == side_items(events, Side::B)),
            Notification::Complete,
        ],
{
    lemma_run_invariant::<Item, E>(events);
    let (m, out) = sequence_equal_run::<Item, E>(events);
    let pa = side_items(events, Side::A);
    let pb = side_items(events, Side::B);
    let v = out[0]->Next_0;
    assert(pa.subrange(0, pa.len() as int) =~= pa);
    assert(pb.subrange(0, pb.len() as int) =~= pb);
    assert(extends(pa, pa, true));
    assert(extends(pb, pb, true));
    assert(out =~= seq![Notification::<bool, E>::Next(pa == pb), Notification::Complete]);
}

} // verus!
