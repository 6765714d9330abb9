//! BufferWhen: buffers items until a closing observable, obtained from a
//! selector for every buffer, emits.
use crate::notification::{Notification, chunk_ok, emit_one, next_vec_of};
use vstd::prelude::*;

verus! {

/// Emit buffers closed by `closing_selector()`.
///
/// A buffer opens at subscribe together with a closing observable from the
/// selector. When it emits, the buffer is emitted and a new buffer and
/// closing observable start. The closing observable's completion is ignored.
/// Source completion emits the last buffer.
pub struct BufferWhen<S, F> {
    pub source: S,
    pub closing_selector: F,
}

/// State shared by the source and closing observers.
pub struct BufferWhenState<Item> {
    /// The downstream observer is still attached.
    pub observer: bool,
    pub buffer: Vec<Item>,
    /// Bumped for every closing observable; older ones stand down.
    pub generation: usize,
}

/// Opens the next buffer's closing observable: the returned observer must be
/// subscribed to `closing_selector()`, replacing the previous closing
/// subscription. Nothing opens once the result ended.
pub fn open_closing<Item>(state: &mut BufferWhenState<Item>) -> (o: Option<BufferWhenClosingObserver>)
    requires
        old(state).generation < usize::MAX,
    ensures
        !old(state).observer ==> o is None && *final(state) == *old(state),
        old(state).observer ==> {
            &&& o == Some(BufferWhenClosingObserver { generation: (old(state).generation + 1) as usize })
            &&& *final(state) == (BufferWhenState { generation: (old(state).generation + 1) as usize, ..*old(state) })
        },
{
    if !state.observer {
        return None;
    }
    state.generation = state.generation + 1;
    Some(BufferWhenClosingObserver { generation: state.generation })
}

impl<S, F> BufferWhen<S, F> {
    /// Starts the operator: an empty buffer and its first closing.
    pub fn subscribe<Item>(&self) -> (r: (BufferWhenState<Item>, BufferWhenClosingObserver, BufferWhenSourceObserver))
        ensures
            r.0.observer,
            r.0.buffer@.len() == 0,
            r.0.generation == 1,
            r.1.generation == 1,
    {
        let mut state = BufferWhenState { observer: true, buffer: Vec::new(), generation: 0 };
        let closing = open_closing(&mut state);
        match closing {
            Some(c) => (state, c, BufferWhenSourceObserver {}),
            None => (state, BufferWhenClosingObserver { generation: 0 }, BufferWhenSourceObserver {}),
        }
    }
}

/// Observer for a closing observable.
pub struct BufferWhenClosingObserver {
    pub generation: usize,
}

impl BufferWhenClosingObserver {
    /// The current closing emitted: the buffer is emitted and the next one
    /// opens with a new closing (returned). A stale closing does nothing.
    pub fn next<Item, E>(&self, state: &mut BufferWhenState<Item>) -> (r: (Vec<Notification<Vec<Item>, E>>, Option<BufferWhenClosingObserver>))
        requires
            old(state).generation < usize::MAX,
        ensures
            chunk_ok(old(state).observer, r.0@, final(state).observer),
            old(state).generation != self.generation || !old(state).observer ==> {
                &&& r.0@.len() == 0
                &&& r.1 is None
                &&& *final(state) == *old(state)
            },
            old(state).generation == self.generation && old(state).observer ==> {
                &&& r.0@.len() == 1 && next_vec_of(r.0@[0], old(state).buffer@)
                &&& r.1 == Some(BufferWhenClosingObserver { generation: (old(state).generation + 1) as usize })
                &&& final(state).buffer@.len() == 0
                &&& final(state).generation == old(state).generation + 1
                &&& final(state).observer
            },
    {
        if state.generation != self.generation || !state.observer {
            return (Vec::new(), None);
        }
        let mut buffer = Vec::new();
        std::mem::swap(&mut buffer, &mut state.buffer);
        let out = emit_one(Notification::Next(buffer));
        let reopened = open_closing(state);
        (out, reopened)
    }

    /// A closing error ends the result.
    pub fn error<Item, E>(self, state: &mut BufferWhenState<Item>, err: E) -> (out: Vec<Notification<Vec<Item>, E>>)
        ensures
            chunk_ok(old(state).observer, out@, final(state).observer),
            out@ == if old(state).observer { seq![Notification::<Vec<Item>, E>::Error(err)] } else { Seq::empty() },
            !final(state).observer,
            final(state).buffer == old(state).buffer,
            final(state).generation == old(state).generation,
    {
        if state.observer {
            state.observer = false;
            emit_one(Notification::Error(err))
        } else {
            Vec::new()
        }
    }

    /// Closing completion without a value keeps the buffer open.
    pub fn complete<Item>(self, state: &BufferWhenState<Item>) {
    }

    /// Closed once stale, once the result ended, or when the downstream
    /// closed itself.
    pub fn is_closed<Item>(&self, state: &BufferWhenState<Item>, downstream_closed: bool) -> (b: bool)
        ensures
            b == (state.generation != self.generation || !state.observer || downstream_closed),
    {
        state.generation != self.generation || !state.observer || downstream_closed
    }
}

/// Observer for the source. Its terminal events also cancel the closing.
pub struct BufferWhenSourceObserver {}

impl BufferWhenSourceObserver {
    /// Items are buffered.
    pub fn next<Item>(&self, state: &mut BufferWhenState<Item>, value: Item)
        ensures
            final(state).buffer@ == old(state).buffer@.push(value),
            final(state).observer == old(state).observer,
            final(state).generation == old(state).generation,
    {
        state.buffer.push(value);
    }

    /// The source error ends the result.
    pub fn error<Item, E>(self, state: &mut BufferWhenState<Item>, err: E) -> (out: Vec<Notification<Vec<Item>, E>>)
        ensures
            chunk_ok(old(state).observer, out@, final(state).observer),
            out@ == if old(state).observer { seq![Notification::<Vec<Item>, E>::Error(err)] } else { Seq::empty() },
            !final(state).observer,
            final(state).buffer == old(state).buffer,
            final(state).generation == old(state).generation,
    {
        if state.observer {
            state.observer = false;
            emit_one(Notification::Error(err))
        } else {
            Vec::new()
        }
    }

    /// The source completed: the last buffer is emitted, then the completion.
    pub fn complete<Item, E>(self, state: &mut BufferWhenState<Item>) -> (out: Vec<Notification<Vec<Item>, E>>)
        requires
            old(state).generation < usize::MAX,
        ensures
            chunk_ok(old(state).observer, out@, final(state).observer),
            !final(state).observer,
            final(state).buffer@.len() == 0,
            final(state).generation == old(state).generation + 1,
            !old(state).observer ==> out@.len() == 0,
            old(state).observer ==> out@.len() == 2 && next_vec_of(out@[0], old(state).buffer@)
                && out@[1] == Notification::<Vec<Item>, E>::Complete,
    {
        let mut buffer = Vec::new();
        std::mem::swap(&mut buffer, &mut state.buffer);
        state.generation = state.generation + 1;
        if state.observer {
            state.observer = false;
            let mut out = emit_one(Notification::Next(buffer));
            out.push(Notification::Complete);
            out
        } else {
            Vec::new()
        }
    }

    pub fn is_closed<Item>(&self, state: &BufferWhenState<Item>, downstream_closed: bool) -> (b: bool)
        ensures
            b == (!state.observer || downstream_closed),
    {
        !state.observer || downstream_closed
    }
}

} // verus!
