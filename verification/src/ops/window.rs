//! Window: splits the source into consecutive windows, each an observable of
//! its own, delimited by a notifier.
use crate::notification::{Notification, chunk_ok, emit_one};
use vstd::prelude::*;

verus! {

/// Emit consecutive windows delimited by `notifier`.
///
/// Each window is emitted as soon as it opens; the first window opens at
/// subscribe. When `notifier` emits, the current window completes and a new
/// one opens. Source completion or error terminates the open window and then
/// the outer stream.
pub struct Window<S, N> {
    pub source: S,
    pub notifier: N,
}

impl<S: Clone, N: Clone> Clone for Window<S, N> {
    fn clone(&self) -> (c: Self)
        ensures
            vstd::pervasive::cloned(self.source, c.source),
            vstd::pervasive::cloned(self.notifier, c.notifier),
    {
        Window { source: self.source.clone(), notifier: self.notifier.clone() }
    }
}

/// State shared by the source and notifier observers.
///
/// The outer stream emits window numbers; `windows[k]` records what window
/// `k` received.
pub struct WindowState<Item, E> {
    /// The downstream observer is still attached.
    pub observer: bool,
    /// The open window, if any.
    pub current: Option<usize>,
    pub windows: Vec<Vec<Notification<Item, E>>>,
}

impl<Item, E> WindowState<Item, E> {
    /// The open window is one that was emitted.
    pub open spec fn wf(&self) -> bool {
        self.current matches Some(w) ==> w < self.windows@.len()
    }

    /// What each window received.
    pub open spec fn logs(&self) -> Seq<Seq<Notification<Item, E>>> {
        self.windows@.map_values(|w: Vec<Notification<Item, E>>| w@)
    }

    /// Delivers `n` to window `w`.
    fn deliver(&mut self, w: usize, n: Notification<Item, E>)
        requires
            w < old(self).windows@.len(),
        ensures
            final(self).logs() == old(self).logs().update(w as int, old(self).logs()[w as int].push(n)),
            final(self).windows@.len() == old(self).windows@.len(),
            final(self).observer == old(self).observer,
            final(self).current == old(self).current,
    {
        let mut log = self.windows.remove(w);
        log.push(n);
        self.windows.insert(w, log);
        assert(self.logs() =~= old(self).logs().update(w as int, old(self).logs()[w as int].push(n)));
    }
}

/// Completes the open window, if any, and opens the next one, unless the
/// outer stream ended or the downstream closed itself.
pub fn rotate_window<Item, E>(state: &mut WindowState<Item, E>, downstream_closed: bool) -> (out: Vec<Notification<usize, E>>)
    requires
        old(state).wf(),
        old(state).windows@.len() < usize::MAX,
    ensures
        final(state).wf(),
        chunk_ok(old(state).observer, out@, final(state).observer),
        final(state).observer == old(state).observer,
        ({
            let closed = match old(state).current {
                Some(w) => old(state).logs().update(w as int, old(state).logs()[w as int].push(Notification::Complete)),
                None => old(state).logs(),
            };
            if old(state).observer && !downstream_closed {
                &&& final(state).logs() == closed.push(Seq::empty())
                &&& final(state).current == Some(old(state).windows@.len() as usize)
                &&& out@ == seq![Notification::<usize, E>::Next(old(state).windows@.len() as usize)]
            } else {
                &&& final(state).logs() == closed
                &&& final(state).current is None
                &&& out@.len() == 0
            }
        }),
{
    if let Some(w) = state.current {
        state.deliver(w, Notification::Complete);
        state.current = None;
    }
    if !state.observer || downstream_closed {
        return Vec::new();
    }
    let k = state.windows.len();
    let ghost before = state.logs();
    state.windows.push(Vec::new());
    assert(state.logs() =~= before.push(Seq::empty()));
    state.current = Some(k);
    emit_one(Notification::Next(k))
}

impl<S, N> Window<S, N> {
    /// Pairs a source with its boundary notifier.
    pub fn new(source: S, notifier: N) -> (w: Self)
        ensures
            w.source == source,
            w.notifier == notifier,
    {
        Window { source, notifier }
    }

    /// Starts the operator: the first window opens at once. Then the source
    /// and the notifier are subscribed.
    pub fn subscribe<Item, E>(&self, downstream_closed: bool) -> (r: (WindowState<Item, E>, Vec<Notification<usize, E>>))
        ensures
            r.0.wf(),
            r.0.observer,
            !downstream_closed ==> r.0.logs() == seq![Seq::<Notification<Item, E>>::empty()]
                && r.0.current == Some(0usize) && r.1@ == seq![Notification::<usize, E>::Next(0)],
            downstream_closed ==> r.0.logs().len() == 0 && r.0.current is None && r.1@.len() == 0,
    {
        let mut state = WindowState { observer: true, current: None, windows: Vec::new() };
        assert(state.logs() =~= Seq::empty());
        let out = rotate_window(&mut state, downstream_closed);
        (state, out)
    }
}

/// Observer for the source. Its terminal events also cancel the notifier.
pub struct WindowSourceObserver {}

impl WindowSourceObserver {
    /// The item goes into the open window.
    pub fn next<Item, E>(&self, state: &mut WindowState<Item, E>, value: Item)
        requires
            old(state).wf(),
        ensures
            final(state).wf(),
            final(state).observer == old(state).observer,
            final(state).current == old(state).current,
            final(state).logs() == match old(state).current {
                Some(w) => old(state).logs().update(w as int, old(state).logs()[w as int].push(Notification::Next(value))),
                None => old(state).logs(),
            },
    {
        if let Some(w) = state.current {
            state.deliver(w, Notification::Next(value));
        }
    }

    /// The error ends the open window and then the outer stream.
    pub fn error<Item, E: Clone>(self, state: &mut WindowState<Item, E>, err: E) -> (out: Vec<Notification<usize, E>>)
        requires
            old(state).wf(),
        ensures
            final(state).wf(),
            chunk_ok(old(state).observer, out@, final(state).observer),
            !final(state).observer,
            final(state).current is None,
            out@ == if old(state).observer { seq![Notification::<usize, E>::Error(err)] } else { Seq::empty() },
            old(state).current is None ==> final(state).logs() == old(state).logs(),
            old(state).current matches Some(w) ==> final(state).logs().len() == old(state).logs().len()
                && (final(state).logs()[w as int].last() matches Notification::Error(e) && vstd::pervasive::cloned(err, e))
                && final(state).logs()[w as int].drop_last() == old(state).logs()[w as int]
                && forall|k: int| 0 <= k < old(state).logs().len() && k != w ==> final(state).logs()[k] == old(state).logs()[k],
    {
        terminate_with_error(state, err)
    }

    /// The completion ends the open window and then the outer stream.
    pub fn complete<Item, E>(self, state: &mut WindowState<Item, E>) -> (out: Vec<Notification<usize, E>>)
        requires
            old(state).wf(),
        ensures
            final(state).wf(),
            chunk_ok(old(state).observer, out@, final(state).observer),
            !final(state).observer,
            final(state).current is None,
            out@ == if old(state).observer { seq![Notification::<usize, E>::Complete] } else { Seq::empty() },
            final(state).logs() == match old(state).current {
                Some(w) => old(state).logs().update(w as int, old(state).logs()[w as int].push(Notification::Complete)),
                None => old(state).logs(),
            },
    {
        if let Some(w) = state.current {
            state.deliver(w, Notification::Complete);
            state.current = None;
        }
        if state.observer {
            state.observer = false;
            emit_one(Notification::Complete)
        } else {
            Vec::new()
        }
    }

    pub fn is_closed<Item, E>(&self, state: &WindowState<Item, E>, downstream_closed: bool) -> (b: bool)
        ensures
            b == (!state.observer || downstream_closed),
    {
        !state.observer || downstream_closed
    }
}

/// Ends the open window and the outer stream with `err`.
fn terminate_with_error<Item, E: Clone>(state: &mut WindowState<Item, E>, err: E) -> (out: Vec<Notification<usize, E>>)
    requires
        old(state).wf(),
    ensures
        final(state).wf(),
        chunk_ok(old(state).observer, out@, final(state).observer),
        !final(state).observer,
        final(state).current is None,
        out@ == if old(state).observer { seq![Notification::<usize, E>::Error(err)] } else { Seq::empty() },
        old(state).current is None ==> final(state).logs() == old(state).logs(),
        old(state).current matches Some(w) ==> final(state).logs().len() == old(state).logs().len()
            && (final(state).logs()[w as int].last() matches Notification::Error(e) && vstd::pervasive::cloned(err, e))
            && final(state).logs()[w as int].drop_last() == old(state).logs()[w as int]
            && forall|k: int| 0 <= k < old(state).logs().len() && k != w ==> final(state).logs()[k] == old(state).logs()[k],
{
    if let Some(w) = state.current {
        let copy = err.clone();
        state.deliver(w, Notification::Error(copy));
        state.current = None;
    }
    if state.observer {
        state.observer = false;
        emit_one(Notification::Error(err))
    } else {
        Vec::new()
    }
}

/// Observer for the boundary notifier.
pub struct WindowNotifierObserver {}

impl WindowNotifierObserver {
    /// A boundary rotates the window.
    pub fn next<Item, E>(&self, state: &mut WindowState<Item, E>, downstream_closed: bool) -> (out: Vec<Notification<usize, E>>)
        requires
            old(state).wf(),
            old(state).windows@.len() < usize::MAX,
        ensures
            final(state).wf(),
            chunk_ok(old(state).observer, out@, final(state).observer),
            final(state).observer == old(state).observer,
            ({
                let closed = match old(state).current {
                    Some(w) => old(state).logs().update(w as int, old(state).logs()[w as int].push(Notification::Complete)),
                    None => old(state).logs(),
                };
                if old(state).observer && !downstream_closed {
                    &&& final(state).logs() == closed.push(Seq::empty())
                    &&& final(state).current == Some(old(state).windows@.len() as usize)
                    &&& out@ == seq![Notification::<usize, E>::Next(old(state).windows@.len() as usize)]
                } else {
                    &&& final(state).logs() == closed
                    &&& final(state).current is None
                    &&& out@.len() == 0
                }
            }),
    {
        rotate_window(state, downstream_closed)
    }

    /// The notifier's error ends the open window and the outer stream (and
    /// cancels the source).
    pub fn error<Item, E: Clone>(self, state: &mut WindowState<Item, E>, err: E) -> (out: Vec<Notification<usize, E>>)
        requires
            old(state).wf(),
        ensures
            final(state).wf(),
            chunk_ok(old(state).observer, out@, final(state).observer),
            !final(state).observer,
            final(state).current is None,
            out@ == if old(state).observer { seq![Notification::<usize, E>::Error(err)] } else { Seq::empty() },
            old(state).current is None ==> final(state).logs() == old(state).logs(),
            old(state).current matches Some(w) ==> final(state).logs().len() == old(state).logs().len()
                && (final(state).logs()[w as int].last() matches Notification::Error(e) && vstd::pervasive::cloned(err, e))
                && final(state).logs()[w as int].drop_last() == old(state).logs()[w as int]
                && forall|k: int| 0 <= k < old(state).logs().len() && k != w ==> final(state).logs()[k] == old(state).logs()[k],
    {
        terminate_with_error(state, err)
    }

    /// A completed boundary keeps the current window open until the source
    /// ends.
    pub fn complete<Item, E>(self, state: &WindowState<Item, E>) {
    }

    pub fn is_closed<Item, E>(&self, state: &WindowState<Item, E>) -> (b: bool)
        ensures
            b == !state.observer,
    {
        !state.observer
    }
}

} // verus!
