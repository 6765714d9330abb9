//! Using: ties a resource's lifetime to a subscription.
use crate::notification::{Notification, chunk_ok, emit_one};
use vstd::prelude::*;

verus! {

/// Creates a resource per subscription, builds the observable from it, and
/// drops the resource when the subscription terminates or is unsubscribed.
pub struct Using<RF, OF> {
    pub resource_factory: RF,
    pub observable_factory: OF,
}

impl<RF, OF> Using<RF, OF> {
    /// Pairs a resource factory with an observable factory.
    pub fn new(resource_factory: RF, observable_factory: OF) -> (u: Self)
        ensures
            u.resource_factory == resource_factory,
            u.observable_factory == observable_factory,
    {
        Using { resource_factory, observable_factory }
    }

    /// Creates the resource, builds the source from it, and holds the
    /// resource for the subscription: the returned holder, the source to
    /// subscribe with a [`UsingObserver`], and the [`UsingSubscription`].
    pub fn subscribe<Res, Out>(self) -> (r: (Option<Res>, Out, UsingObserver, UsingSubscription))
        where RF: FnOnce() -> Res, OF: FnOnce(&Res) -> Out
        requires
            self.resource_factory.requires(()),
            forall|res: &Res| self.observable_factory.requires((res,)),
        ensures
            r.0 matches Some(res) && self.resource_factory.ensures((), res)
                && self.observable_factory.ensures((&res,), r.1),
    {
        let Using { resource_factory, observable_factory } = self;
        let resource = resource_factory();
        let source = observable_factory(&resource);
        (Some(resource), source, UsingObserver {}, UsingSubscription {})
    }
}

/// Observer that releases the resource on a terminal event.
pub struct UsingObserver {}

impl UsingObserver {
    pub fn next<Item, E>(&self, value: Item) -> (out: Vec<Notification<Item, E>>)
        ensures
            out@ == seq![Notification::<Item, E>::Next(value)],
            chunk_ok(true, out@, true),
    {
        emit_one(Notification::Next(value))
    }

    /// Releases the resource (returned, to be dropped), then forwards the
    /// error.
    pub fn error<Res, Item, E>(self, holder: &mut Option<Res>, err: E) -> (r: (Option<Res>, Vec<Notification<Item, E>>))
        ensures
            r.0 == *old(holder),
            (*final(holder)) is None,
            r.1@ == seq![Notification::<Item, E>::Error(err)],
            chunk_ok(true, r.1@, false),
    {
        let released = holder.take();
        (released, emit_one(Notification::Error(err)))
    }

    /// Releases the resource (returned, to be dropped), then completes.
    pub fn complete<Res, Item, E>(self, holder: &mut Option<Res>) -> (r: (Option<Res>, Vec<Notification<Item, E>>))
        ensures
            r.0 == *old(holder),
            (*final(holder)) is None,
            r.1@ == seq![Notification::<Item, E>::Complete],
            chunk_ok(true, r.1@, false),
    {
        let released = holder.take();
        (released, emit_one(Notification::Complete))
    }

    pub fn is_closed(&self, downstream_closed: bool) -> (b: bool)
        ensures
            b == downstream_closed,
    {
        downstream_closed
    }
}

/// Subscription that releases the resource when unsubscribed.
pub struct UsingSubscription {}

impl UsingSubscription {
    /// After unsubscribing the source, releases the resource (returned, to
    /// be dropped).
    pub fn unsubscribe<Res>(self, holder: &mut Option<Res>) -> (released: Option<Res>)
        ensures
            released == *old(holder),
            (*final(holder)) is None,
    {
        holder.take()
    }

    /// Closed when the source subscription is closed or the resource was
    /// released.
    pub fn is_closed<Res>(&self, inner_closed: bool, holder: &Option<Res>) -> (b: bool)
        ensures
            b == (inner_closed || holder is None),
    {
        inner_closed || holder.is_none()
    }
}

} // verus!
