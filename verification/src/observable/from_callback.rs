//! FromCallback: emit the values handed to a callback, then complete.
use std::marker::PhantomData;
use crate::notification::{Notification, chunk_ok, deliver_then_complete, deliver_then_complete_spec};
use vstd::prelude::*;

verus! {

/// Runs `f` with an emit callback at subscribe; each value passed to the
/// callback is emitted while the observer is open, and the observable
/// completes when `f` returns.
pub struct FromCallback<F, Item> {
    pub f: F,
    pub marker: PhantomData<Item>,
}

impl<F: Clone, Item> Clone for FromCallback<F, Item> {
    fn clone(&self) -> (c: Self)
        ensures
            vstd::pervasive::cloned(self.f, c.f),
    {
        FromCallback { f: self.f.clone(), marker: PhantomData }
    }
}

impl<F, Item> FromCallback<F, Item> {
    /// Wraps the callback-taking function.
    pub fn new(f: F) -> (c: Self)
        ensures
            c.f == f,
    {
        FromCallback { f, marker: PhantomData }
    }

    /// What the observer receives when `f` passed `values` to the emit
    /// callback, in order: each while the observer is open (it accepts
    /// `capacity` more items), then the completion.
    pub fn subscribe<E>(&self, values: Vec<Item>, capacity: Option<usize>) -> (out: Vec<Notification<Item, E>>)
        ensures
            out@ == deliver_then_complete_spec::<Item, E>(values@, capacity),
            chunk_ok(true, out@, false),
    {
        deliver_then_complete(values, capacity)
    }
}

} // verus!
