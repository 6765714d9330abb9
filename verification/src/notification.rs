//! The events an observable delivers, and the grammar they follow.
use vstd::prelude::*;

verus! {

/// A reified observable event.
#[derive(Debug, Clone, PartialEq, Eq)]
pub enum Notification<Item, E> {
    /// An item was emitted
    Next(Item),
    /// The stream errored
    Error(E),
    /// The stream completed
    Complete,
}

impl<Item, E> Notification<Item, E> {
    /// An error or a completion: nothing may follow it.
    pub open spec fn is_terminal(self) -> bool {
        !(self is Next)
    }
}

/// A stream obeys the observable grammar: `Next* (Error | Complete)?`.
pub open spec fn valid_stream<Item, E>(s: Seq<Notification<Item, E>>) -> bool {
    forall|i: int| 0 <= i < s.len() - 1 ==> !(#[trigger] s[i]).is_terminal()
}

/// What one event handler may emit, given whether the downstream observer was
/// still attached before (`open_before`) and after (`open_after`) the call:
/// nothing once detached, never anything after a terminal event, and a
/// terminal event only as the last emission of a call that detaches.
pub open spec fn chunk_ok<Item, E>(
    open_before: bool,
    out: Seq<Notification<Item, E>>,
    open_after: bool,
) -> bool {
    &&& !open_before ==> out.len() == 0 && !open_after
    &&& valid_stream(out)
    &&& out.len() > 0 && out.last().is_terminal() ==> !open_after
}

/// Handlers compose: two calls that each respect the grammar, the second
/// starting where the first left the observer, respect it together.
pub proof fn lemma_chunks_compose<Item, E>(
    a: bool,
    s1: Seq<Notification<Item, E>>,
    b: bool,
    s2: Seq<Notification<Item, E>>,
    c: bool,
)
    requires
        chunk_ok(a, s1, b),
        chunk_ok(b, s2, c),
    ensures
        chunk_ok(a, s1 + s2, c),
{
    let s = s1 + s2;
    assert forall|i: int| 0 <= i < s.len() - 1 implies !(#[trigger] s[i]).is_terminal() by {
        if i < s1.len() - 1 {
            assert(s[i] == s1[i]);
        } else if i == s1.len() - 1 {
            assert(s[i] == s1.last());
            assert(s2.len() > 0);
        } else {
            assert(s[i] == s2[i - s1.len()]);
        }
    }
    if s.len() > 0 && s.last().is_terminal() {
        if s2.len() > 0 {
            assert(s.last() == s2.last());
        } else {
            assert(s.last() == s1.last());
        }
    }
}

/// The emissions of consecutive handler calls: call `i` starts with the
/// observer attached as `opens[i]` and leaves it as `opens[i + 1]`.
pub open spec fn chunks_chain<Item, E>(chunks: Seq<Seq<Notification<Item, E>>>, opens: Seq<bool>) -> bool {
    &&& opens.len() == chunks.len() + 1
    &&& forall|i: int| 0 <= i < chunks.len() ==> chunk_ok(opens[i], #[trigger] chunks[i], opens[i + 1])
}

/// Everything an operator emits, whatever events drive it and in whatever
/// order, obeys the observable grammar: no emission follows a terminal
/// event, and once the observer is detached nothing more is emitted.
pub proof fn lemma_operator_output_is_valid<Item, E>(chunks: Seq<Seq<Notification<Item, E>>>, opens: Seq<bool>)
    requires
        chunks_chain(chunks, opens),
    ensures
        chunk_ok(opens[0], chunks.flatten(), opens.last()),
        valid_stream(chunks.flatten()),
    decreases chunks.len(),
{
    if chunks.len() == 0 {
        assert(chunks.flatten() =~= Seq::<Notification<Item, E>>::empty());
    } else {
        let init = chunks.drop_last();
        let oinit = opens.drop_last();
        assert forall|i: int| 0 <= i < init.len() implies chunk_ok(oinit[i], #[trigger] init[i], oinit[i + 1]) by {
            assert(init[i] == chunks[i]);
            assert(chunk_ok(opens[i], chunks[i], opens[i + 1]));
        }
        lemma_operator_output_is_valid(init, oinit);
        let k = chunks.len() - 1;
        assert(chunk_ok(opens[k], chunks[k], opens[k + 1]));
        assert(chunks == init.push(chunks.last()));
        init.lemma_flatten_push(chunks.last());
        assert(oinit.last() == opens[k]);
        lemma_chunks_compose(opens[0], init.flatten(), opens[k], chunks[k], opens.last());
    }
}

/// What a handler of a joining operator does: what it emits, and the
/// subscriptions of other sources it cancels, by id.
pub struct JoinOutcome<T, E> {
    pub out: Vec<Notification<T, E>>,
    pub cancelled: Vec<usize>,
}

/// `n` emits a vector holding exactly `items`.
pub open spec fn next_vec_of<T, E>(n: Notification<Vec<T>, E>, items: Seq<T>) -> bool {
    n matches Notification::Next(v) && v@ == items
}

/// Emitting a single notification.
pub fn emit_one<Item, E>(n: Notification<Item, E>) -> (out: Vec<Notification<Item, E>>)
    ensures
        out@ == seq![n],
{
    let mut out = Vec::new();
    out.push(n);
    out
}

/// Emitting an item followed by a completion.
pub fn emit_last<Item, E>(value: Item) -> (out: Vec<Notification<Item, E>>)
    ensures
        out@ == seq![Notification::<Item, E>::Next(value), Notification::Complete],
{
    let mut out = Vec::new();
    out.push(Notification::Next(value));
    out.push(Notification::Complete);
    out
}

/// How many of `n` items a downstream takes before it closes itself:
/// `capacity` is `None` for a downstream that stays open.
pub open spec fn taken(n: nat, capacity: Option<usize>) -> nat {
    match capacity {
        Some(k) => if k < n { k as nat } else { n },
        None => n,
    }
}

/// The items of `values` a downstream with `capacity` accepts, then the
/// completion (sent whether or not it closed itself).
pub open spec fn deliver_then_complete_spec<Item, E>(values: Seq<Item>, capacity: Option<usize>) -> Seq<Notification<Item, E>> {
    values.take(taken(values.len(), capacity) as int).map_values(|v: Item| Notification::<Item, E>::Next(v))
        .push(Notification::Complete)
}

/// Emits `values` in order while the downstream stays open (it accepts
/// `capacity` more items), then completes.
pub fn deliver_then_complete<Item, E>(values: Vec<Item>, capacity: Option<usize>) -> (out: Vec<Notification<Item, E>>)
    ensures
        out@ == deliver_then_complete_spec::<Item, E>(values@, capacity),
        chunk_ok(true, out@, false),
{
    let ghost all = values@;
    let ghost n = taken(all.len(), capacity);
    let ghost expected = all.take(n as int).map_values(|v: Item| Notification::<Item, E>::Next(v));
    let mut rest = values;
    let mut out: Vec<Notification<Item, E>> = Vec::new();
    let mut delivered: usize = 0;
    let _total = rest.len();
    while rest.len() > 0
        invariant
            delivered + rest@.len() == all.len(),
            all.len() <= usize::MAX,
            rest@ == all.subrange(delivered as int, all.len() as int),
            delivered <= n,
            n == taken(all.len(), capacity),
            expected == all.take(n as int).map_values(|v: Item| Notification::<Item, E>::Next(v)),
            out@ == expected.take(delivered as int),
        ensures
            delivered == n,
            out@ == expected.take(delivered as int),
        decreases rest@.len(),
    {
        let open = match capacity {
            Some(k) => delivered < k,
            None => true,
        };
        if !open {
            break;
        }
        let value = rest.remove(0);
        out.push(Notification::Next(value));
        delivered = delivered + 1;
        assert(out@ =~= expected.take(delivered as int));
        assert(rest@ =~= all.subrange(delivered as int, all.len() as int));
    }
    assert(delivered == n);
    assert(out@ =~= expected);
    out.push(Notification::Complete);
    proof {
        let o = out@;
        assert forall|i: int| 0 <= i < o.len() - 1 implies !(#[trigger] o[i]).is_terminal() by {
            assert(o[i] == expected[i]);
        }
    }
    out
}

} // verus!
