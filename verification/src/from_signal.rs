//! Signal to observable: the bookkeeping of the reactive-graph node that
//! mirrors a signal into an observer.
//!
//! The node reads the signal once on subscribe and again, on the next tick of
//! the executor, after a source marks it dirty; writes within one tick
//! coalesce into one emission, a run re-entered from inside the observer is
//! deferred to the next tick, and a disposed signal completes the stream.
use std::convert::Infallible;
use crate::notification::Notification;
use vstd::prelude::*;

verus! {

/// An observable that mirrors a signal. Subscribing starts a [`Node`].
pub struct FromSignal<S> {
    pub signal: S,
}

impl<S: Clone> Clone for FromSignal<S> {
    fn clone(&self) -> (c: Self)
        ensures
            vstd::pervasive::cloned(self.signal, c.signal),
    {
        FromSignal { signal: self.signal.clone() }
    }
}

impl<S> FromSignal<S> {
    /// Subscribes: a fresh node for the signal, whose first run reads it, and
    /// the handle that detaches the node.
    pub fn subscribe(self) -> (r: (S, Node, SignalSubscription))
        ensures
            r.0 == self.signal,
            r.1.graph.dirty && !r.1.graph.scheduled && !r.1.graph.pending && !r.1.graph.closed,
            r.1.graph.sources@.len() == 0,
            r.1.bridge,
            r.2.alive,
    {
        (self.signal, Node::start(), SignalSubscription { alive: true })
    }
}

/// Whether a notification of a node with this bookkeeping spawns a run:
/// the node is open and no run is queued yet.
pub open spec fn spawns_run(g: Graph) -> bool {
    !g.closed && !g.scheduled
}

/// Graph bookkeeping of a node.
pub struct Graph {
    /// A source marked the node dirty; the next run must re-read.
    pub dirty: bool,
    /// A run is queued on the executor.
    pub scheduled: bool,
    /// A notification arrived while a run was in progress.
    pub pending: bool,
    /// Unsubscribed, or the signal was disposed.
    pub closed: bool,
    /// The sources tracked by the last read, by id.
    pub sources: Vec<u64>,
}

/// The node that connects a signal to one observer.
pub struct Node {
    pub graph: Graph,
    /// The signal and the observer are in place: no run is in progress and
    /// the node is not detached.
    pub bridge: bool,
}

/// What the first half of a run decided.
pub enum RunStart<T> {
    /// No bridge (detached, or re-entered from inside `next`): the run is
    /// deferred to after the one in progress.
    Deferred,
    /// The signal did not change: nothing to emit.
    Unchanged,
    /// The signal was re-read: deliver this to the observer. The node forgot
    /// its sources; the returned ids must drop it as a subscriber.
    Read { emit: Notification<T, Infallible>, cleared: Vec<u64> },
}

impl Node {
    /// A fresh node: dirty, so the first run reads the signal.
    pub fn start() -> (n: Node)
        ensures
            n.graph.dirty && !n.graph.scheduled && !n.graph.pending && !n.graph.closed,
            n.graph.sources@.len() == 0,
            n.bridge,
    {
        Node {
            graph: Graph { dirty: true, scheduled: false, pending: false, closed: false, sources: Vec::new() },
            bridge: true,
        }
    }

    /// Queues a run on the executor unless one is already queued or the node
    /// is closed. Returns whether a run must be spawned.
    pub fn schedule(&mut self) -> (spawn: bool)
        ensures
            spawn == spawns_run(old(self).graph),
            final(self).graph.scheduled == (old(self).graph.scheduled || spawn),
            final(self).graph.dirty == old(self).graph.dirty,
            final(self).graph.pending == old(self).graph.pending,
            final(self).graph.closed == old(self).graph.closed,
            final(self).graph.sources == old(self).graph.sources,
            final(self).bridge == old(self).bridge,
    {
        if self.graph.closed || self.graph.scheduled {
            return false;
        }
        self.graph.scheduled = true;
        true
    }

    /// The spawned run begins: nothing is queued any more.
    pub fn tick(&mut self)
        ensures
            !final(self).graph.scheduled,
            final(self).graph.dirty == old(self).graph.dirty,
            final(self).graph.pending == old(self).graph.pending,
            final(self).graph.closed == old(self).graph.closed,
            final(self).graph.sources == old(self).graph.sources,
            final(self).bridge == old(self).bridge,
    {
        self.graph.scheduled = false;
    }

    /// Whether the signal may have changed: the node is dirty (and is
    /// cleaned), or one of its sources reports a change (`sources_changed`).
    pub fn update_if_necessary(&mut self, sources_changed: bool) -> (changed: bool)
        ensures
            changed == (old(self).graph.dirty || sources_changed),
            !final(self).graph.dirty,
            final(self).graph.scheduled == old(self).graph.scheduled,
            final(self).graph.pending == old(self).graph.pending,
            final(self).graph.closed == old(self).graph.closed,
            final(self).graph.sources == old(self).graph.sources,
            final(self).bridge == old(self).bridge,
    {
        if self.graph.dirty {
            self.graph.dirty = false;
            return true;
        }
        sources_changed
    }

    /// First half of a run. `updated` is what `update_if_necessary` said;
    /// `read` is the signal's value when re-read (`None`: disposed).
    pub fn run_start<T>(&mut self, updated: bool, read: Option<T>) -> (r: RunStart<T>)
        ensures
            !final(self).bridge,
            final(self).graph.dirty == old(self).graph.dirty,
            final(self).graph.scheduled == old(self).graph.scheduled,
            final(self).graph.pending == (old(self).graph.pending || !old(self).bridge),
            final(self).graph.closed == (old(self).graph.closed || (old(self).bridge && updated && read is None)),
            !old(self).bridge ==> r is Deferred && final(self).graph.sources == old(self).graph.sources,
            old(self).bridge && !updated ==> r is Unchanged && final(self).graph.sources == old(self).graph.sources,
            old(self).bridge && updated ==> final(self).graph.sources@.len() == 0 && (r matches RunStart::Read { emit, cleared }
                && cleared@ == old(self).graph.sources@
                && emit == (match read {
                    Some(v) => Notification::<T, Infallible>::Next(v),
                    None => Notification::<T, Infallible>::Complete,
                })),
    {
        if !self.bridge {
            self.graph.pending = true;
            return RunStart::Deferred;
        }
        self.bridge = false;
        if !updated {
            return RunStart::Unchanged;
        }
        let cleared = self.clear_sources();
        match read {
            Some(value) => RunStart::Read { emit: Notification::Next(value), cleared },
            None => {
                self.graph.closed = true;
                RunStart::Read { emit: Notification::Complete, cleared }
            },
        }
    }

    /// Second half of a run that did not defer, after the observer received
    /// the emission. A closed observer or node stays detached (the returned
    /// sources must drop it); otherwise the bridge is put back and a run that
    /// was deferred meanwhile is queued (`Ok(spawn)`).
    pub fn run_finish(&mut self, observer_closed: bool) -> (r: Result<bool, Vec<u64>>)
        ensures
            observer_closed || old(self).graph.closed ==> {
                &&& r matches Err(cleared) && cleared@ == old(self).graph.sources@
                &&& final(self).graph.closed
                &&& final(self).graph.sources@.len() == 0
                &&& !final(self).bridge
                &&& final(self).graph.dirty == old(self).graph.dirty
                &&& final(self).graph.pending == old(self).graph.pending
                &&& final(self).graph.scheduled == old(self).graph.scheduled
            },
            !(observer_closed || old(self).graph.closed) ==> {
                &&& r == Ok::<bool, Vec<u64>>(old(self).graph.pending && !old(self).graph.scheduled)
                &&& final(self).bridge
                &&& !final(self).graph.pending
                &&& final(self).graph.scheduled == (old(self).graph.scheduled || old(self).graph.pending)
                &&& final(self).graph.dirty == old(self).graph.dirty
                &&& !final(self).graph.closed
                &&& final(self).graph.sources == old(self).graph.sources
            },
    {
        if observer_closed || self.graph.closed {
            self.graph.closed = true;
            let cleared = self.clear_sources();
            self.bridge = false;
            return Err(cleared);
        }
        self.bridge = true;
        let pending = self.graph.pending;
        self.graph.pending = false;
        if pending {
            Ok(self.schedule())
        } else {
            Ok(false)
        }
    }

    /// Unsubscribes: the node closes, drops the bridge and forgets its
    /// sources (returned, to drop it as a subscriber).
    pub fn detach(&mut self) -> (cleared: Vec<u64>)
        ensures
            cleared@ == old(self).graph.sources@,
            final(self).graph.closed,
            !final(self).bridge,
            final(self).graph.sources@.len() == 0,
            final(self).graph.dirty == old(self).graph.dirty,
            final(self).graph.pending == old(self).graph.pending,
            final(self).graph.scheduled == old(self).graph.scheduled,
    {
        self.graph.closed = true;
        self.bridge = false;
        self.clear_sources()
    }

    pub fn is_detached(&self) -> (b: bool)
        ensures
            b == self.graph.closed,
    {
        self.graph.closed
    }

    /// A source changed: re-read on the next run. Returns whether a run must
    /// be spawned.
    pub fn mark_dirty(&mut self) -> (spawn: bool)
        ensures
            final(self).graph.dirty,
            spawn == spawns_run(old(self).graph),
            final(self).graph.scheduled == (old(self).graph.scheduled || spawn),
            final(self).graph.pending == old(self).graph.pending,
            final(self).graph.closed == old(self).graph.closed,
            final(self).graph.sources == old(self).graph.sources,
            final(self).bridge == old(self).bridge,
    {
        self.graph.dirty = true;
        self.schedule()
    }

    /// A source may have changed: check on the next run.
    pub fn mark_check(&mut self) -> (spawn: bool)
        ensures
            spawn == spawns_run(old(self).graph),
            final(self).graph.scheduled == (old(self).graph.scheduled || spawn),
            final(self).graph.dirty == old(self).graph.dirty,
            final(self).graph.pending == old(self).graph.pending,
            final(self).graph.closed == old(self).graph.closed,
            final(self).graph.sources == old(self).graph.sources,
            final(self).bridge == old(self).bridge,
    {
        self.schedule()
    }

    /// Tracks a source read during a run, once.
    pub fn add_source(&mut self, source: u64)
        ensures
            old(self).graph.sources@.contains(source) ==> final(self).graph.sources@ == old(self).graph.sources@,
            !old(self).graph.sources@.contains(source) ==> final(self).graph.sources@ == old(self).graph.sources@.push(source),
            final(self).graph.dirty == old(self).graph.dirty,
            final(self).graph.scheduled == old(self).graph.scheduled,
            final(self).graph.pending == old(self).graph.pending,
            final(self).graph.closed == old(self).graph.closed,
            final(self).bridge == old(self).bridge,
    {
        let mut i: usize = 0;
        while i < self.graph.sources.len()
            invariant
                i <= self.graph.sources@.len(),
                forall|k: int| 0 <= k < i ==> self.graph.sources@[k] != source,
            decreases self.graph.sources@.len() - i,
        {
            if self.graph.sources[i] == source {
                assert(self.graph.sources@.contains(source));
                return;
            }
            i = i + 1;
        }
        self.graph.sources.push(source);
    }

    /// Forgets every tracked source; returns them.
    pub fn clear_sources(&mut self) -> (cleared: Vec<u64>)
        ensures
            cleared@ == old(self).graph.sources@,
            final(self).graph.sources@.len() == 0,
            final(self).graph.dirty == old(self).graph.dirty,
            final(self).graph.scheduled == old(self).graph.scheduled,
            final(self).graph.pending == old(self).graph.pending,
            final(self).graph.closed == old(self).graph.closed,
            final(self).bridge == old(self).bridge,
    {
        let mut cleared = Vec::new();
        std::mem::swap(&mut cleared, &mut self.graph.sources);
        cleared
    }
}

/// Subscription handle returned by [`FromSignal`]: it detaches the node.
pub struct SignalSubscription {
    /// The node is still alive (not dropped).
    pub alive: bool,
}

impl SignalSubscription {
    /// Detaches the node if it is still alive; returns the sources it must
    /// leave.
    pub fn unsubscribe(self, node: &mut Node) -> (cleared: Vec<u64>)
        ensures
            !self.alive ==> cleared@.len() == 0 && *final(node) == *old(node),
            self.alive ==> cleared@ == old(node).graph.sources@ && final(node).graph.closed
                && !final(node).bridge && final(node).graph.sources@.len() == 0,
    {
        if self.alive {
            node.detach()
        } else {
            Vec::new()
        }
    }

    /// Closed when the node is gone or detached.
    pub fn is_closed(&self, node: &Node) -> (b: bool)
        ensures
            b == (!self.alive || node.graph.closed),
    {
        !self.alive || node.is_detached()
    }
}

/// Changes within one tick coalesce: once a notification has queued a run,
/// further notifications before that run begins queue nothing more, so the
/// observer sees one emission for the whole batch.
pub proof fn lemma_changes_coalesce(before: Graph, after: Graph, spawned: bool)
    requires
        spawned == spawns_run(before),
        after.scheduled == (before.scheduled || spawned),
        after.closed == before.closed,
    ensures
        !spawns_run(after),
{
}

} // verus!
