//! Single: emits the only item of a source, or errors if there is none or
//! more than one.
use crate::notification::{Notification, chunk_ok, emit_last, emit_one};
use vstd::prelude::*;

verus! {

/// Why `single` could not produce exactly one item.
#[derive(Debug, Clone, Copy, PartialEq, Eq, Structural)]
pub enum SingleError {
    /// The source completed without emitting
    Empty,
    /// The source emitted a second item
    TooMany,
}

impl SingleError {
    /// The human-readable description.
    pub fn message(&self) -> (s: &'static str)
        ensures
            *self == SingleError::Empty ==> s@ == "expected exactly one item, got none"@,
            *self == SingleError::TooMany ==> s@ == "expected exactly one item, got more"@,
    {
        match self {
            SingleError::Empty => "expected exactly one item, got none",
            SingleError::TooMany => "expected exactly one item, got more",
        }
    }
}

/// The error a `SingleError` converts into.
pub open spec fn single_error<E: From<SingleError>>(reason: SingleError, e: E) -> bool {
    call_ensures(E::from, (reason,), e)
}

fn convert<E: From<SingleError>>(reason: SingleError) -> (e: E)
    ensures
        single_error(reason, e),
{
    E::from(reason)
}

/// Emit the only item, or error: with [`SingleError::Empty`] if the source
/// completes without items and with [`SingleError::TooMany`] as soon as a
/// second item arrives, releasing the source.
pub struct Single<S> {
    pub source: S,
}

/// Observer that holds the first item and rejects a second.
pub struct SingleObserver<Item> {
    /// The downstream observer is still attached.
    pub observer: bool,
    pub first: Option<Item>,
}

impl<S> Single<S> {
    pub fn subscribe<Item>(&self) -> (o: SingleObserver<Item>)
        ensures
            o.observer && o.first is None,
    {
        SingleObserver { observer: true, first: None }
    }
}

impl<Item> SingleObserver<Item> {
    /// Keeps the first item; a second one errors with `TooMany`.
    pub fn next<E: From<SingleError>>(&mut self, value: Item) -> (out: Vec<Notification<Item, E>>)
        ensures
            chunk_ok(old(self).observer, out@, final(self).observer),
            !old(self).observer ==> out@.len() == 0 && *final(self) == *old(self),
            old(self).observer && old(self).first is None ==> out@.len() == 0
                && *final(self) == (SingleObserver { observer: true, first: Some(value) }),
            old(self).observer && old(self).first is Some ==> !final(self).observer && final(self).first is None
                && out@.len() == 1 && (out@[0] matches Notification::Error(e) && single_error(SingleError::TooMany, e)),
    {
        if !self.observer {
            return Vec::new();
        }
        if self.first.is_some() {
            self.first = None;
            self.observer = false;
            emit_one(Notification::Error(convert(SingleError::TooMany)))
        } else {
            self.first = Some(value);
            Vec::new()
        }
    }

    pub fn error<E>(self, err: E) -> (out: Vec<Notification<Item, E>>)
        ensures
            chunk_ok(self.observer, out@, false),
            out@ == if self.observer { seq![Notification::<Item, E>::Error(err)] } else { Seq::empty() },
    {
        if self.observer {
            emit_one(Notification::Error(err))
        } else {
            Vec::new()
        }
    }

    /// Emits the one item, or errors with `Empty`.
    pub fn complete<E: From<SingleError>>(self) -> (out: Vec<Notification<Item, E>>)
        ensures
            chunk_ok(self.observer, out@, false),
            !self.observer ==> out@.len() == 0,
            self.observer ==> match self.first {
                Some(v) => out@ == seq![Notification::<Item, E>::Next(v), Notification::Complete],
                None => out@.len() == 1 && (out@[0] matches Notification::Error(e) && single_error(SingleError::Empty, e)),
            },
    {
        if !self.observer {
            return Vec::new();
        }
        match self.first {
            Some(value) => emit_last(value),
            None => emit_one(Notification::Error(convert(SingleError::Empty))),
        }
    }

    pub fn is_closed(&self, downstream_closed: bool) -> (b: bool)
        ensures
            b == (!self.observer || downstream_closed),
    {
        !self.observer || downstream_closed
    }
}

} // verus!
