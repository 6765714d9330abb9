//! Materialize turns every event into a [`Notification`] item; dematerialize
//! turns [`Notification`] items back into events.
use std::convert::Infallible;
use std::marker::PhantomData;
use crate::notification::{Notification, chunk_ok, emit_one, valid_stream};
use vstd::prelude::*;

verus! {

/// Emits every event as a [`Notification`]; errors and completion become
/// items, after which the stream completes. The result cannot error.
pub struct Materialize<S> {
    pub source: S,
}

/// What materialize emits for one source event: the event as an item, and
/// after a terminal event the completion.
pub open spec fn materialized<Item, E>(e: Notification<Item, E>) -> Seq<
    Notification<Notification<Item, E>, Infallible>,
> {
    if e.is_terminal() {
        seq![Notification::Next(e), Notification::Complete]
    } else {
        seq![Notification::Next(e)]
    }
}

/// What materialize emits for a run of source events.
pub open spec fn materialize_run<Item, E>(events: Seq<Notification<Item, E>>) -> Seq<
    Notification<Notification<Item, E>, Infallible>,
>
    decreases events.len(),
{
    if events.len() == 0 {
        Seq::empty()
    } else {
        materialize_run(events.drop_last()) + materialized(events.last())
    }
}

/// The items of a stream, in order.
pub open spec fn items_of<N, E>(s: Seq<Notification<N, E>>) -> Seq<N>
    decreases s.len(),
{
    if s.len() == 0 {
        Seq::empty()
    } else {
        items_of(s.drop_last()) + match s.last() {
            Notification::Next(n) => seq![n],
            _ => Seq::empty(),
        }
    }
}

/// What a fresh dematerialize observer emits for a run of notification
/// items, and whether it is still attached afterwards.
pub open spec fn dematerialize_run<Item, E>(ns: Seq<Notification<Item, E>>) -> (Seq<Notification<Item, E>>, bool)
    decreases ns.len(),
{
    if ns.len() == 0 {
        (Seq::empty(), true)
    } else {
        let (out, attached) = dematerialize_run(ns.drop_last());
        if attached {
            (out.push(ns.last()), !ns.last().is_terminal())
        } else {
            (out, false)
        }
    }
}

/// Observer that wraps events into notifications.
pub struct MaterializeObserver {}

impl<S> Materialize<S> {
    pub fn subscribe(self) -> (r: (S, MaterializeObserver))
        ensures
            r.0 == self.source,
    {
        (self.source, MaterializeObserver {})
    }
}

impl MaterializeObserver {
    pub fn next<Item, E>(&self, value: Item) -> (out: Vec<Notification<Notification<Item, E>, Infallible>>)
        ensures
            out@ == materialized(Notification::<Item, E>::Next(value)),
            chunk_ok(true, out@, true),
    {
        emit_one(Notification::Next(Notification::Next(value)))
    }

    pub fn error<Item, E>(self, err: E) -> (out: Vec<Notification<Notification<Item, E>, Infallible>>)
        ensures
            out@ == materialized(Notification::<Item, E>::Error(err)),
            chunk_ok(true, out@, false),
    {
        let mut out = emit_one(Notification::Next(Notification::Error(err)));
        out.push(Notification::Complete);
        out
    }

    pub fn complete<Item, E>(self) -> (out: Vec<Notification<Notification<Item, E>, Infallible>>)
        ensures
            out@ == materialized(Notification::<Item, E>::Complete),
            chunk_ok(true, out@, false),
    {
        let mut out = emit_one(Notification::Next(Notification::Complete));
        out.push(Notification::Complete);
        out
    }

    pub fn is_closed(&self, downstream_closed: bool) -> (b: bool)
        ensures
            b == downstream_closed,
    {
        downstream_closed
    }
}

/// Replays [`Notification`] items as real events. The first `Error` or
/// `Complete` notification terminates the stream and unsubscribes the
/// source.
pub struct Dematerialize<S, Item, E> {
    pub source: S,
    pub marker: PhantomData<(Item, E)>,
}

impl<S: Clone, Item, E> Clone for Dematerialize<S, Item, E> {
    fn clone(&self) -> (c: Self)
        ensures
            vstd::pervasive::cloned(self.source, c.source),
    {
        Dematerialize { source: self.source.clone(), marker: PhantomData }
    }
}

impl<S, Item, E> Dematerialize<S, Item, E> {
    /// Wraps a source of notifications.
    pub fn new(source: S) -> (d: Self)
        ensures
            d.source == source,
    {
        Dematerialize { source, marker: PhantomData }
    }

    pub fn subscribe(&self) -> (o: DematerializeObserver)
        ensures
            o.observer,
    {
        DematerializeObserver { observer: true }
    }
}

/// Observer that unwraps notifications into events.
pub struct DematerializeObserver {
    /// The downstream observer is still attached.
    pub observer: bool,
}

impl DematerializeObserver {
    /// A notification becomes the event it describes; a terminal one ends
    /// the stream.
    pub fn next<Item, E>(&mut self, n: Notification<Item, E>) -> (out: Vec<Notification<Item, E>>)
        ensures
            chunk_ok(old(self).observer, out@, final(self).observer),
            out@ == if old(self).observer { seq![n] } else { Seq::empty() },
            final(self).observer == (old(self).observer && !n.is_terminal()),
    {
        if !self.observer {
            return Vec::new();
        }
        match n {
            Notification::Next(item) => emit_one(Notification::Next(item)),
            Notification::Error(e) => {
                self.observer = false;
                emit_one(Notification::Error(e))
            },
            Notification::Complete => {
                self.observer = false;
                emit_one(Notification::Complete)
            },
        }
    }

    pub fn complete<Item, E>(self) -> (out: Vec<Notification<Item, E>>)
        ensures
            chunk_ok(self.observer, out@, false),
            out@ == if self.observer { seq![Notification::<Item, E>::Complete] } else { Seq::empty() },
    {
        if self.observer {
            emit_one(Notification::Complete)
        } else {
            Vec::new()
        }
    }

    pub fn is_closed(&self, downstream_closed: bool) -> (b: bool)
        ensures
            b == (!self.observer || downstream_closed),
    {
        !self.observer || downstream_closed
    }
}

proof fn lemma_items_of_append<N, E>(a: Seq<Notification<N, E>>, b: Seq<Notification<N, E>>)
    ensures
        items_of(a + b) == items_of(a) + items_of(b),
    decreases b.len(),
{
    if b.len() == 0 {
        assert(a + b == a);
    } else {
        lemma_items_of_append(a, b.drop_last());
        assert((a + b).drop_last() == a + b.drop_last());
    }
}

/// Dematerialize undoes materialize: for any stream that obeys the
/// observable grammar, the items materialize emits are exactly the source's
/// events, and dematerializing them gives back the same events, detaching
/// exactly when the stream ended.
pub proof fn lemma_dematerialize_undoes_materialize<Item, E>(events: Seq<Notification<Item, E>>)
    requires
        valid_stream(events),
    ensures
        items_of(materialize_run(events)) == events,
        dematerialize_run(events).0 == events,
        dematerialize_run(events).1 == (events.len() == 0 || !events.last().is_terminal()),
    decreases events.len(),
{
    if events.len() > 0 {
        let init = events.drop_last();
        assert forall|i: int| 0 <= i < init.len() - 1 implies !(#[trigger] init[i]).is_terminal() by {
            assert(init[i] == events[i]);
        }
        lemma_dematerialize_undoes_materialize(init);
        lemma_items_of_append(materialize_run(init), materialized(events.last()));
        let m = materialized(events.last());
        assert(items_of(m) == seq![events.last()]) by {
            let one = seq![Notification::<Notification<Item, E>, Infallible>::Next(events.last())];
            assert(one.drop_last() =~= Seq::empty());
            assert(items_of(one.drop_last()) =~= Seq::<Notification<Item, E>>::empty());
            assert(items_of(one) =~= seq![events.last()]);
            if events.last().is_terminal() {
                assert(m.drop_last() == one);
            } else {
                assert(m == one);
            }
        }
        if init.len() > 0 {
            assert(init.last() == events[events.len() - 2]);
        }
        assert(events == init.push(events.last()));
    }
}

} // verus!
