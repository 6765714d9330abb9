//! Timeout: errors if the source stays silent for longer than a duration.
use std::time::Duration;
use crate::notification::{Notification, chunk_ok, emit_one};
use vstd::prelude::*;

verus! {

/// The error `timeout` emits when no item arrives in time.
#[derive(Debug, Clone, Copy, PartialEq, Eq)]
pub struct TimeoutError;

impl TimeoutError {
    /// The human-readable description.
    pub fn message(&self) -> (s: &'static str)
        ensures
            s@ == "observable timed out"@,
    {
        "observable timed out"
    }
}

/// Builds the default timeout error for any `E: From<TimeoutError>`.
pub fn default_timeout_error<E: From<TimeoutError>>() -> (e: E)
    ensures
        call_ensures(E::from, (TimeoutError,), e),
{
    E::from(TimeoutError)
}

/// Error if the source is silent for `duration`.
///
/// The timer starts at subscription and restarts after every item. When it
/// fires, the downstream receives the error from `error_fn` and the source
/// is released.
pub struct Timeout<S, Sch, F> {
    pub source: S,
    pub duration: Duration,
    pub scheduler: Sch,
    pub error_fn: F,
}

/// The observer and the state its timer task shares.
pub struct TimeoutObserver<F> {
    /// The downstream observer is still attached.
    pub observer: bool,
    /// A timer task is scheduled.
    pub armed: bool,
    /// The error builder, until the timer used it.
    pub error_fn: Option<F>,
}

/// What an event asks of the scheduler.
pub struct TimeoutStep<Item, E> {
    pub out: Vec<Notification<Item, E>>,
    /// Cancel the scheduled timer task.
    pub cancel_timer: bool,
    /// Schedule a new timer task after `duration`.
    pub schedule_timer: bool,
}

impl<S, Sch, F> Timeout<S, Sch, F> {
    /// Starts the operator with its first timer armed.
    pub fn subscribe(self) -> (r: (S, TimeoutObserver<F>))
        ensures
            r.0 == self.source,
            r.1.observer && r.1.armed && r.1.error_fn == Some(self.error_fn),
    {
        (self.source, TimeoutObserver { observer: true, armed: true, error_fn: Some(self.error_fn) })
    }
}

/// The timer fired: the downstream receives the built error (once).
pub fn timeout_fire<F: FnOnce() -> E, Item, E>(state: &mut TimeoutObserver<F>) -> (out: Vec<Notification<Item, E>>)
    requires
        old(state).error_fn matches Some(f) ==> f.requires(()),
    ensures
        chunk_ok(old(state).observer, out@, final(state).observer),
        !final(state).observer,
        final(state).error_fn is None,
        final(state).armed == old(state).armed,
        old(state).observer && old(state).error_fn is Some ==> out@.len() == 1
            && (out@[0] matches Notification::Error(e) && old(state).error_fn->0.ensures((), e)),
        !(old(state).observer && old(state).error_fn is Some) ==> out@.len() == 0,
{
    let observer = state.observer;
    state.observer = false;
    let error_fn = state.error_fn.take();
    match error_fn {
        Some(f) => if observer {
            emit_one(Notification::Error(f()))
        } else {
            Vec::new()
        },
        None => Vec::new(),
    }
}

impl<F> TimeoutObserver<F> {
    /// (Re)starts the timer: the previous task (returned flag) is cancelled
    /// and a new one scheduled.
    pub fn arm(&mut self) -> (cancel_previous: bool)
        ensures
            cancel_previous == old(self).armed,
            final(self).armed,
            final(self).observer == old(self).observer,
            final(self).error_fn == old(self).error_fn,
    {
        let cancel_previous = self.disarm();
        self.armed = true;
        cancel_previous
    }

    /// Cancels the scheduled timer, if any (returned flag).
    pub fn disarm(&mut self) -> (cancel: bool)
        ensures
            cancel == old(self).armed,
            !final(self).armed,
            final(self).observer == old(self).observer,
            final(self).error_fn == old(self).error_fn,
    {
        let cancel = self.armed;
        self.armed = false;
        cancel
    }

    /// An item is mirrored and restarts the timer.
    pub fn next<Item, E>(&mut self, value: Item) -> (r: TimeoutStep<Item, E>)
        ensures
            chunk_ok(old(self).observer, r.out@, final(self).observer),
            r.cancel_timer == old(self).armed,
            r.schedule_timer == old(self).observer,
            final(self).armed == old(self).observer,
            final(self).observer == old(self).observer,
            final(self).error_fn == old(self).error_fn,
            r.out@ == if old(self).observer { seq![Notification::<Item, E>::Next(value)] } else { Seq::empty() },
    {
        let cancel_timer = self.disarm();
        let out = if self.observer { emit_one(Notification::Next(value)) } else { Vec::new() };
        let schedule_timer = self.observer;
        if schedule_timer {
            let _ = self.arm();
        }
        TimeoutStep { out, cancel_timer, schedule_timer }
    }

    /// The error cancels the timer and is mirrored.
    pub fn error<Item, E>(&mut self, err: E) -> (r: TimeoutStep<Item, E>)
        ensures
            chunk_ok(old(self).observer, r.out@, final(self).observer),
            r.cancel_timer == old(self).armed,
            !r.schedule_timer,
            !final(self).armed && !final(self).observer,
            final(self).error_fn == old(self).error_fn,
            r.out@ == if old(self).observer { seq![Notification::<Item, E>::Error(err)] } else { Seq::empty() },
    {
        let cancel_timer = self.disarm();
        let out = if self.observer {
            self.observer = false;
            emit_one(Notification::Error(err))
        } else {
            Vec::new()
        };
        TimeoutStep { out, cancel_timer, schedule_timer: false }
    }

    /// The completion cancels the timer and is mirrored.
    pub fn complete<Item, E>(&mut self) -> (r: TimeoutStep<Item, E>)
        ensures
            chunk_ok(old(self).observer, r.out@, final(self).observer),
            r.cancel_timer == old(self).armed,
            !r.schedule_timer,
            !final(self).armed && !final(self).observer,
            final(self).error_fn == old(self).error_fn,
            r.out@ == if old(self).observer { seq![Notification::<Item, E>::Complete] } else { Seq::empty() },
    {
        let cancel_timer = self.disarm();
        let out = if self.observer {
            self.observer = false;
            emit_one(Notification::Complete)
        } else {
            Vec::new()
        };
        TimeoutStep { out, cancel_timer, schedule_timer: false }
    }

    pub fn is_closed(&self, downstream_closed: bool) -> (b: bool)
        ensures
            b == (!self.observer || downstream_closed),
    {
        !self.observer || downstream_closed
    }
}

} // verus!
