//! Iif: choose one of two observables at subscribe time.
use vstd::prelude::*;

verus! {

/// Subscribes `then_source` when `condition()` is true, else `else_source`.
pub struct Iif<F, A, B> {
    pub condition: F,
    pub then_source: A,
    pub else_source: B,
}

/// The source an `Iif` subscribes.
pub enum IifBranch<A, B> {
    Then(A),
    Else(B),
}

impl<F: FnOnce() -> bool, A, B> Iif<F, A, B> {
    /// Evaluates the condition (once, at subscribe) and picks the source.
    pub fn subscribe(self) -> (r: IifBranch<A, B>)
        requires
            self.condition.requires(()),
        ensures
            self.condition.ensures((), true) && r == IifBranch::<A, B>::Then(self.then_source)
                || self.condition.ensures((), false) && r == IifBranch::<A, B>::Else(self.else_source),
    {
        let Iif { condition, then_source, else_source } = self;
        if condition() {
            IifBranch::Then(then_source)
        } else {
            IifBranch::Else(else_source)
        }
    }
}

} // verus!
