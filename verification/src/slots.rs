//! One optional value per input stream, as the joining operators keep them.
use vstd::prelude::*;

verus! {

/// Every input has a value.
pub open spec fn all_some<T>(s: Seq<Option<T>>) -> bool {
    forall|i: int| 0 <= i < s.len() ==> (#[trigger] s[i]) is Some
}

/// The values of inputs that all have one, in input order.
pub open spec fn unwrap_all<T>(s: Seq<Option<T>>) -> Seq<T> {
    s.map_values(|o: Option<T>| o->0)
}

/// `n` empty slots.
pub fn empty_slots<T>(n: usize) -> (v: Vec<Option<T>>)
    ensures
        v@.len() == n,
        forall|i: int| 0 <= i < n ==> (#[trigger] v@[i]) is None,
{
    let mut v: Vec<Option<T>> = Vec::new();
    let mut i: usize = 0;
    while i < n
        invariant
            i <= n,
            v@.len() == i,
            forall|k: int| 0 <= k < i ==> (#[trigger] v@[k]) is None,
        decreases n - i,
    {
        v.push(None);
        i = i + 1;
    }
    v
}

/// Whether every slot holds a value.
pub fn slots_full<T>(v: &Vec<Option<T>>) -> (b: bool)
    ensures
        b == all_some(v@),
{
    let mut i: usize = 0;
    while i < v.len()
        invariant
            i <= v@.len(),
            forall|k: int| 0 <= k < i ==> (#[trigger] v@[k]) is Some,
        decreases v@.len() - i,
    {
        if v[i].is_none() {
            return false;
        }
        i = i + 1;
    }
    true
}

/// `out` holds a clone of every slot's value, in slot order.
pub open spec fn clones_of<T: Clone>(slots: Seq<Option<T>>, out: Seq<T>) -> bool {
    &&& out.len() == slots.len()
    &&& forall|i: int| 0 <= i < slots.len() ==> vstd::pervasive::cloned(slots[i]->0, #[trigger] out[i])
}

/// A clone of every value, in slot order; every slot must hold one.
pub fn snapshot<T: Clone>(v: &Vec<Option<T>>) -> (out: Vec<T>)
    requires
        all_some(v@),
    ensures
        clones_of(v@, out@),
{
    let mut out: Vec<T> = Vec::new();
    let mut i: usize = 0;
    while i < v.len()
        invariant
            i <= v@.len(),
            all_some(v@),
            out@.len() == i,
            forall|k: int| 0 <= k < i ==> vstd::pervasive::cloned(v@[k]->0, #[trigger] out@[k]),
        decreases v@.len() - i,
    {
        match &v[i] {
            Some(value) => {
                out.push(value.clone());
            },
            None => {},
        }
        i = i + 1;
    }
    out
}

/// Moves every value out, in slot order, leaving no slot; every slot must
/// hold one.
pub fn drain_all<T>(v: &mut Vec<Option<T>>) -> (out: Vec<T>)
    requires
        all_some(old(v)@),
    ensures
        out@ == unwrap_all(old(v)@),
        final(v)@.len() == 0,
{
    let ghost all = v@;
    let mut rest: Vec<Option<T>> = Vec::new();
    std::mem::swap(&mut rest, v);
    let mut out: Vec<T> = Vec::new();
    while rest.len() > 0
        invariant
            out@.len() + rest@.len() == all.len(),
            rest@ == all.subrange(out@.len() as int, all.len() as int),
            out@ == unwrap_all(all).subrange(0, out@.len() as int),
            all_some(all),
            v@.len() == 0,
        decreases rest@.len(),
    {
        let first = rest.remove(0);
        let ghost k = out@.len() as int;
        assert(first == all[k]);
        match first {
            Some(value) => {
                out.push(value);
            },
            None => {},
        }
        assert(unwrap_all(all).subrange(0, k + 1) =~= unwrap_all(all).subrange(0, k).push(all[k]->0));
        assert(rest@ =~= all.subrange(k + 1, all.len() as int));
    }
    assert(unwrap_all(all).subrange(0, all.len() as int) =~= unwrap_all(all));
    out
}

} // verus!
