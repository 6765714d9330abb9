//! Bookkeeping of the inner subscriptions an operator holds, by id.
use vstd::prelude::*;

verus! {

/// The ids of the inner subscriptions an operator currently holds, and the
/// next id to hand out. The subscription handles themselves live with the
/// caller that subscribed; this records which of them must be cancelled.
pub struct DynamicSubscriptions {
    next_id: usize,
    live: Vec<usize>,
}

impl View for DynamicSubscriptions {
    type V = Set<usize>;

    closed spec fn view(&self) -> Set<usize> {
        Set::new(|x: usize| self.live@.contains(x))
    }
}

impl DynamicSubscriptions {
    /// The id the next `reserve_id` hands out.
    pub closed spec fn next_id_spec(&self) -> nat {
        self.next_id as nat
    }

    /// Every held id was handed out before.
    pub closed spec fn wf(&self) -> bool {
        forall|i: int| 0 <= i < self.live@.len() ==> (#[trigger] self.live@[i]) < self.next_id
    }

    /// An empty set of subscriptions.
    pub fn new() -> (s: Self)
        ensures
            s@ == Set::<usize>::empty(),
            s.next_id_spec() == 0,
            s.wf(),
    {
        let s = DynamicSubscriptions { next_id: 0, live: Vec::new() };
        assert(s@ =~= Set::<usize>::empty());
        s
    }

    /// Hands out a fresh id, never handed out before.
    pub fn reserve_id(&mut self) -> (id: usize)
        requires
            old(self).next_id_spec() < usize::MAX,
            old(self).wf(),
        ensures
            id == old(self).next_id_spec(),
            final(self).next_id_spec() == old(self).next_id_spec() + 1,
            final(self)@ == old(self)@,
            final(self).wf(),
            !final(self)@.contains(id),
    {
        let id = self.next_id;
        self.next_id = self.next_id + 1;
        proof {
            if self.live@.contains(id) {
                let k = choose|k: int| 0 <= k < self.live@.len() && self.live@[k] == id;
                assert(self.live@[k] < id);
            }
        }
        id
    }

    /// The id the next `reserve_id` hands out.
    pub fn next_id(&self) -> (n: usize)
        ensures
            n == self.next_id_spec(),
    {
        self.next_id
    }

    /// Whether the subscription with this id is held.
    pub fn contains(&self, id: usize) -> (b: bool)
        ensures
            b == self@.contains(id),
            self.wf() && b ==> id < self.next_id_spec(),
    {
        let mut i: usize = 0;
        while i < self.live.len()
            invariant
                0 <= i <= self.live@.len(),
                forall|k: int| 0 <= k < i ==> self.live@[k] != id,
            decreases self.live@.len() - i,
        {
            if self.live[i] == id {
                assert(self.live@.contains(id));
                return true;
            }
            i = i + 1;
        }
        assert(!self.live@.contains(id));
        false
    }

    /// Keeps the subscription with this id.
    pub fn insert(&mut self, id: usize)
        requires
            old(self).wf(),
            id < old(self).next_id_spec(),
        ensures
            final(self)@ == old(self)@.insert(id),
            final(self).next_id_spec() == old(self).next_id_spec(),
            final(self).wf(),
    {
        if !self.contains(id) {
            self.live.push(id);
            assert(self.live@ == old(self).live@.push(id));
            assert forall|x: usize| self.live@.contains(x) <==> old(self).live@.contains(x) || x == id by {
                if old(self).live@.contains(x) {
                    let k = choose|k: int| 0 <= k < old(self).live@.len() && old(self).live@[k] == x;
                    assert(self.live@[k] == x);
                }
                if x == id {
                    assert(self.live@[self.live@.len() - 1] == id);
                }
            }
        }
        assert(self@ =~= old(self)@.insert(id));
    }

    /// Drops the subscription with this id without cancelling it (its own
    /// stream has ended).
    pub fn remove(&mut self, id: usize)
        requires
            old(self).wf(),
        ensures
            final(self)@ == old(self)@.remove(id),
            final(self).next_id_spec() == old(self).next_id_spec(),
            final(self).wf(),
    {
        let mut kept: Vec<usize> = Vec::new();
        let mut i: usize = 0;
        while i < self.live.len()
            invariant
                0 <= i <= self.live@.len(),
                forall|x: usize| kept@.contains(x) <==> (x != id && exists|k: int| 0 <= k < i && self.live@[k] == x),
                forall|k: int| 0 <= k < kept@.len() ==> (#[trigger] kept@[k]) < self.next_id,
                self.wf(),
            decreases self.live@.len() - i,
        {
            let x = self.live[i];
            let ghost prev = kept@;
            if x != id {
                kept.push(x);
            }
            assert forall|y: usize| kept@.contains(y) <==> (y != id && exists|k: int| 0 <= k < i + 1 && self.live@[k] == y) by {
                if kept@.contains(y) {
                    let j = choose|j: int| 0 <= j < kept@.len() && kept@[j] == y;
                    if j < prev.len() {
                        assert(prev[j] == y);
                        assert(prev.contains(y));
                    }
                }
                if y != id && exists|k: int| 0 <= k < i + 1 && self.live@[k] == y {
                    let k = choose|k: int| 0 <= k < i + 1 && self.live@[k] == y;
                    if k < i {
                        assert(prev.contains(y));
                        let j = choose|j: int| 0 <= j < prev.len() && prev[j] == y;
                        assert(kept@[j] == y);
                    } else {
                        assert(kept@[kept@.len() - 1] == y);
                    }
                }
            }
            i = i + 1;
        }
        self.live = kept;
        assert forall|x: usize| self.live@.contains(x) <==> (old(self).live@.contains(x) && x != id) by {
            if old(self).live@.contains(x) {
                let k = choose|k: int| 0 <= k < old(self).live@.len() && old(self).live@[k] == x;
            }
        }
        assert(self@ =~= old(self)@.remove(id));
    }

    /// Cancels every held subscription; returns the ids cancelled.
    pub fn unsubscribe_all(&mut self) -> (cancelled: Vec<usize>)
        requires
            old(self).wf(),
        ensures
            forall|x: usize| cancelled@.contains(x) <==> old(self)@.contains(x),
            final(self)@ == Set::<usize>::empty(),
            final(self).next_id_spec() == old(self).next_id_spec(),
            final(self).wf(),
    {
        let mut cancelled = Vec::new();
        std::mem::swap(&mut cancelled, &mut self.live);
        assert(self@ =~= Set::<usize>::empty());
        cancelled
    }
}

} // verus!
