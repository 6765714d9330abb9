//! Generate: a lazy state-machine iterator.
use vstd::prelude::*;

verus! {

/// Yields `initial`, then `iterate(&state)` while `condition(&state)` holds.
pub struct Generate<T, C, I> {
    pub state: Option<T>,
    pub condition: C,
    pub iterate: I,
}

impl<T, C, I> Generate<T, C, I> {
    /// Creates the generator.
    pub fn new(initial: T, condition: C, iterate: I) -> (g: Self)
        ensures
            g.state == Some(initial),
            g.condition == condition,
            g.iterate == iterate,
    {
        Generate { state: Some(initial), condition, iterate }
    }

    /// The next value: the current state while the condition holds for it
    /// (the state then advances by `iterate`); `None` from the first state
    /// that fails the condition on.
    pub fn next(&mut self) -> (r: Option<T>)
        where C: FnMut(&T) -> bool, I: FnMut(&T) -> T
        requires
            forall|x: &T| old(self).condition.requires((x,)),
            forall|x: &T| old(self).iterate.requires((x,)),
        ensures
            final(self).condition == old(self).condition,
            final(self).iterate == old(self).iterate,
            old(self).state is None ==> r is None && final(self).state is None,
            old(self).state matches Some(c) ==> {
                ||| r == Some(c) && old(self).condition.ensures((&c,), true)
                    && (final(self).state matches Some(n) && old(self).iterate.ensures((&c,), n))
                ||| r is None && old(self).condition.ensures((&c,), false) && final(self).state is None
            },
    {
        let current = match self.state.take() {
            Some(c) => c,
            None => return None,
        };
        if !(self.condition)(&current) {
            return None;
        }
        self.state = Some((self.iterate)(&current));
        Some(current)
    }
}

} // verus!
