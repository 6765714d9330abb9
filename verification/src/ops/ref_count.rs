//! RefCount: connects a connectable observable on the first subscription and
//! disconnects when the last subscriber leaves.
use vstd::prelude::*;

verus! {

/// Manages the connection of a connectable observable by the subscriber
/// count of its subject.
pub struct RefCount<C> {
    pub connectable: C,
    /// The source connection is live.
    pub connection: bool,
}

impl<C: Clone> Clone for RefCount<C> {
    fn clone(&self) -> (c: Self)
        ensures
            vstd::pervasive::cloned(self.connectable, c.connectable),
            c.connection == self.connection,
    {
        RefCount { connectable: self.connectable.clone(), connection: self.connection }
    }
}

/// Subscription for RefCount. Disconnects the source when the last
/// subscriber leaves.
pub struct RefCountSubscription {}

impl<C> RefCount<C> {
    /// After the observer subscribed the subject: connect the source when the
    /// subject is live, this is its only subscriber and nothing is connected.
    /// Returns whether to connect.
    pub fn subscribe(&mut self, subject_terminated: bool, subscriber_count: usize) -> (r: (bool, RefCountSubscription))
        ensures
            r.0 == (!subject_terminated && subscriber_count == 1 && !old(self).connection),
            final(self).connection == (old(self).connection || r.0),
            final(self).connectable == old(self).connectable,
    {
        let connect = !subject_terminated && subscriber_count == 1 && !self.connection;
        if connect {
            self.connection = true;
        }
        (connect, RefCountSubscription {})
    }
}

impl RefCountSubscription {
    /// After leaving the subject: when it has no subscriber left, the
    /// connection is cancelled. Returns whether a live connection must be
    /// cancelled.
    pub fn unsubscribe<C>(self, ref_count: &mut RefCount<C>, subject_empty: bool) -> (disconnect: bool)
        ensures
            disconnect == (subject_empty && old(ref_count).connection),
            final(ref_count).connection == (old(ref_count).connection && !subject_empty),
            final(ref_count).connectable == old(ref_count).connectable,
    {
        if subject_empty {
            let live = ref_count.connection;
            ref_count.connection = false;
            live
        } else {
            false
        }
    }

    pub fn is_closed(&self, inner_closed: bool) -> (b: bool)
        ensures
            b == inner_closed,
    {
        inner_closed
    }
}

} // verus!
