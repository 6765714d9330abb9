//! Share: multicast one source connection through a subject, with resets
//! after an error, after completion, or when the last subscriber leaves.
use std::marker::PhantomData;
use std::time::Duration;
use vstd::prelude::*;

verus! {

/// When a shared connection is reset.
///
/// The defaults reset on error, on completion and when the subscriber count
/// drops to zero, so every "cold start" resubscribes to the source.
/// [`ShareConfig::replay`] keeps the connection and the replay buffer alive.
#[derive(Clone, Copy, Debug, PartialEq, Eq)]
pub struct ShareConfig {
    /// Drop the subject after the source errors, so later subscribers
    /// resubscribe instead of receiving the error.
    pub reset_on_error: bool,
    /// Drop the subject after the source completes, so later subscribers
    /// resubscribe instead of receiving the completion.
    pub reset_on_complete: bool,
    /// Unsubscribe the source and drop the subject when the last subscriber
    /// leaves; otherwise the connection stays alive.
    pub reset_on_ref_count_zero: bool,
}

impl Default for ShareConfig {
    fn default() -> (c: Self)
        ensures
            c.reset_on_error && c.reset_on_complete && c.reset_on_ref_count_zero,
    {
        Self::new()
    }
}

impl ShareConfig {
    /// `share()` defaults: reset on error, completion and ref count zero.
    pub fn new() -> (c: Self)
        ensures
            c.reset_on_error && c.reset_on_complete && c.reset_on_ref_count_zero,
    {
        ShareConfig { reset_on_error: true, reset_on_complete: true, reset_on_ref_count_zero: true }
    }

    /// `shareReplay()` defaults: reset on error only; the connection and the
    /// replay buffer outlive the subscribers.
    pub fn replay() -> (c: Self)
        ensures
            c.reset_on_error && !c.reset_on_complete && !c.reset_on_ref_count_zero,
    {
        ShareConfig { reset_on_error: true, reset_on_complete: false, reset_on_ref_count_zero: false }
    }

    pub fn reset_on_error(self, reset: bool) -> (c: Self)
        ensures
            c == (ShareConfig { reset_on_error: reset, ..self }),
    {
        ShareConfig { reset_on_error: reset, ..self }
    }

    pub fn reset_on_complete(self, reset: bool) -> (c: Self)
        ensures
            c == (ShareConfig { reset_on_complete: reset, ..self }),
    {
        ShareConfig { reset_on_complete: reset, ..self }
    }

    pub fn reset_on_ref_count_zero(self, reset: bool) -> (c: Self)
        ensures
            c == (ShareConfig { reset_on_ref_count_zero: reset, ..self }),
    {
        ShareConfig { reset_on_ref_count_zero: reset, ..self }
    }
}

/// Creates the subject for each connection of a [`Share`].
pub trait Connector: Sized {
    type Subject;

    /// Whether a `create` call on `before` can leave the connector as
    /// `after` and return `subject`. A connector that does not say claims
    /// nothing of its subjects.
    open spec fn creates(before: Self, after: Self, subject: Self::Subject) -> bool {
        true
    }

    fn create(&mut self) -> (subject: Self::Subject)
        ensures
            Self::creates(*old(self), *final(self), subject),
    ;
}

/// Connector for plain (publish) subjects: `Sub::default()` per connection.
pub struct PublishConnector<Sub>(pub PhantomData<Sub>);

impl<Sub> Clone for PublishConnector<Sub> {
    fn clone(&self) -> (c: Self)
        ensures
            c == *self,
    {
        PublishConnector(PhantomData)
    }
}

impl<Sub> Default for PublishConnector<Sub> {
    fn default() -> (c: Self)
        ensures
            c == PublishConnector::<Sub>(PhantomData),
    {
        PublishConnector(PhantomData)
    }
}

impl<Sub: Default> Connector for PublishConnector<Sub> {
    type Subject = Sub;

    /// The connector is unchanged and the subject is one `Sub::default()`
    /// gives.
    open spec fn creates(before: Self, after: Self, subject: Sub) -> bool {
        after == before && call_ensures(Sub::default, (), subject)
    }

    /// Each connection gets a fresh subject from `Sub::default()`.
    fn create(&mut self) -> (subject: Sub)
        ensures
            *final(self) == *old(self),
            call_ensures(Sub::default, (), subject),
    {
        Sub::default()
    }
}

/// A subject that replays what it received to late subscribers, built with
/// an optional capacity and time window.
pub trait ReplaySubject: Sized {
    fn new(capacity: Option<usize>) -> Self;

    fn new_with_window(capacity: Option<usize>, window: Duration) -> Self;
}

/// Connector for replay subjects with an optional capacity and time window.
pub struct ReplayConnector<Sub> {
    pub capacity: Option<usize>,
    pub window: Option<Duration>,
    pub marker: PhantomData<Sub>,
}

impl<Sub> Clone for ReplayConnector<Sub> {
    fn clone(&self) -> (c: Self)
        ensures
            c.capacity == self.capacity,
            c.window == self.window,
    {
        ReplayConnector { capacity: self.capacity, window: self.window, marker: PhantomData }
    }
}

impl<Sub> ReplayConnector<Sub> {
    pub fn new(capacity: Option<usize>) -> (c: Self)
        ensures
            c.capacity == capacity,
            c.window is None,
    {
        ReplayConnector { capacity, window: None, marker: PhantomData }
    }

    pub fn with_window(self, window: Duration) -> (c: Self)
        ensures
            c.capacity == self.capacity,
            c.window == Some(window),
    {
        ReplayConnector { capacity: self.capacity, window: Some(window), marker: PhantomData }
    }
}

impl<Sub: ReplaySubject> Connector for ReplayConnector<Sub> {
    type Subject = Sub;

    /// The connector is unchanged and the subject is one the replay subject's
    /// constructor gives for its capacity and, when set, its window.
    open spec fn creates(before: Self, after: Self, subject: Sub) -> bool {
        &&& after == before
        &&& match before.window {
            Some(window) => call_ensures(Sub::new_with_window, (before.capacity, window), subject),
            None => call_ensures(Sub::new, (before.capacity,), subject),
        }
    }

    /// Each connection gets a fresh subject built with this connector's
    /// capacity and, when set, its time window.
    fn create(&mut self) -> (subject: Sub)
        ensures
            *final(self) == *old(self),
            match old(self).window {
                Some(window) => call_ensures(Sub::new_with_window, (old(self).capacity, window), subject),
                None => call_ensures(Sub::new, (old(self).capacity,), subject),
            },
    {
        match self.window {
            Some(window) => Sub::new_with_window(self.capacity, window),
            None => Sub::new(self.capacity),
        }
    }
}

/// How a source ended.
#[derive(Debug, Clone, PartialEq, Eq)]
pub enum Terminal<E> {
    Error(E),
    Complete,
}

/// A copy of a terminal event, through the error's `Clone`.
pub open spec fn terminal_cloned<E: Clone>(a: Terminal<E>, b: Terminal<E>) -> bool {
    match (a, b) {
        (Terminal::Error(x), Terminal::Error(y)) => vstd::pervasive::cloned(x, y),
        (Terminal::Complete, Terminal::Complete) => true,
        _ => false,
    }
}

fn clone_terminal<E: Clone>(t: &Terminal<E>) -> (r: Terminal<E>)
    ensures
        terminal_cloned(*t, r),
{
    match t {
        Terminal::Error(e) => Terminal::Error(e.clone()),
        Terminal::Complete => Terminal::Complete,
    }
}

/// Shared by every clone of a [`Share`] and by its subscriptions.
pub struct ShareState<Conn, Sub, E> {
    pub connector: Conn,
    pub config: ShareConfig,
    /// The subject of the current connection, created by the first subscriber.
    pub subject: Option<Sub>,
    /// The source is subscribed for the current subject.
    pub connected: bool,
    /// The terminal event kept for late subscribers when no reset applies.
    pub terminal: Option<Terminal<E>>,
    pub ref_count: usize,
    /// Bumped on every reset so stale observers and subscriptions stand down.
    pub generation: usize,
}

/// The state after a reset: no subject, no connection, no terminal, no
/// subscribers, and a new generation.
pub open spec fn reset_spec<Conn, Sub, E>(s: ShareState<Conn, Sub, E>) -> ShareState<Conn, Sub, E> {
    ShareState {
        subject: None,
        connected: false,
        terminal: None,
        ref_count: 0,
        generation: (s.generation + 1) as usize,
        ..s
    }
}

/// Whether a subscriber that joined in `generation` must subscribe the source.
pub open spec fn needs_connect_spec<Conn, Sub, E>(s: ShareState<Conn, Sub, E>, generation: usize) -> bool {
    s.generation == generation && !s.connected && s.terminal is None
}

/// The state once the connection made for `generation` is recorded.
pub open spec fn record_connection_spec<Conn, Sub, E>(
    s: ShareState<Conn, Sub, E>,
    generation: usize,
) -> ShareState<Conn, Sub, E> {
    if s.generation == generation && s.terminal is None {
        ShareState { connected: true, ..s }
    } else {
        s
    }
}

/// The state after the source of `generation` completes.
pub open spec fn complete_spec<Conn, Sub, E>(s: ShareState<Conn, Sub, E>, generation: usize) -> ShareState<
    Conn,
    Sub,
    E,
> {
    if s.generation != generation {
        s
    } else if s.config.reset_on_complete {
        reset_spec(s)
    } else {
        ShareState { connected: false, terminal: Some(Terminal::Complete), ..s }
    }
}

/// What leaving the share does: whether the source connection is
/// cancelled, and the state afterwards.
pub open spec fn unsubscribe_spec<Conn, Sub, E>(
    sub: ShareSubscription,
    s: ShareState<Conn, Sub, E>,
) -> (bool, ShareState<Conn, Sub, E>) {
    if !sub.joined || s.generation != sub.generation {
        (false, s)
    } else {
        let count = if s.ref_count == 0 { 0 } else { (s.ref_count - 1) as usize };
        if count == 0 && s.config.reset_on_ref_count_zero {
            (s.connected, reset_spec(s))
        } else {
            (false, ShareState { ref_count: count, ..s })
        }
    }
}

impl<Conn, Sub, E> ShareState<Conn, Sub, E> {
    pub fn new(connector: Conn, config: ShareConfig) -> (s: Self)
        ensures
            s.connector == connector,
            s.config == config,
            s.subject is None,
            !s.connected,
            s.terminal is None,
            s.ref_count == 0,
            s.generation == 0,
    {
        ShareState {
            connector,
            config,
            subject: None,
            connected: false,
            terminal: None,
            ref_count: 0,
            generation: 0,
        }
    }

    fn reset(&mut self)
        requires
            old(self).generation < usize::MAX,
        ensures
            *final(self) == reset_spec(*old(self)),
    {
        self.subject = None;
        self.connected = false;
        self.terminal = None;
        self.ref_count = 0;
        self.generation = self.generation + 1;
    }

    /// Whether a subscriber that joined in `generation` must connect the
    /// source: the generation is current, nothing is connected, and the
    /// source has not ended without a reset.
    pub fn needs_connect(&self, generation: usize) -> (b: bool)
        ensures
            b == needs_connect_spec(*self, generation),
    {
        self.generation == generation && !self.connected && self.terminal.is_none()
    }

    /// Records the source connection made for `generation`, unless the source
    /// ended (and reset or terminated the state) while it was subscribing.
    pub fn record_connection(&mut self, generation: usize)
        ensures
            *final(self) == record_connection_spec(*old(self), generation),
    {
        if self.generation == generation && self.terminal.is_none() {
            self.connected = true;
        }
    }
}

/// What a new subscriber of a [`Share`] gets.
pub enum ShareJoin<E> {
    /// The source ended without a reset: the subscriber receives this
    /// terminal event at once and nothing else.
    Replayed(Terminal<E>),
    /// The subscriber joins the current subject of `generation`; it then
    /// asks [`ShareState::needs_connect`] whether it must subscribe the source.
    Joined { generation: usize },
}

/// The handle of one subscriber of a [`Share`].
pub struct ShareSubscription {
    /// False when the subscriber only received a replayed terminal.
    pub joined: bool,
    pub generation: usize,
}

/// Whether a late subscriber is answered with the recorded terminal: the
/// source ended without a reset and the subject (if any) will not replay it.
pub open spec fn replays_terminal<Conn, Sub, E>(s: ShareState<Conn, Sub, E>, subject_terminated: bool) -> bool {
    s.terminal is Some && (s.subject is None || !subject_terminated)
}

/// The state after a subscriber joins the current subject.
pub open spec fn join_spec<Conn, Sub, E>(s: ShareState<Conn, Sub, E>) -> ShareState<Conn, Sub, E> {
    ShareState { ref_count: (s.ref_count + 1) as usize, ..s }
}

/// Multicasts `source` through the subjects its state creates.
pub struct Share<S> {
    pub source: S,
}

impl<S: Clone> Clone for Share<S> {
    fn clone(&self) -> (c: Self)
        ensures
            vstd::pervasive::cloned(self.source, c.source),
    {
        Share { source: self.source.clone() }
    }
}

impl<S> Share<S> {
    /// Subscribes one observer. `subject_terminated` reports whether the
    /// current subject (if any) has itself received a terminal event, in which
    /// case it replays that event to the new subscriber on its own.
    pub fn subscribe<Conn: Connector<Subject = Sub>, Sub, E: Clone>(
        &self,
        state: &mut ShareState<Conn, Sub, E>,
        subject_terminated: bool,
    ) -> (r: (ShareJoin<E>, ShareSubscription))
        requires
            !replays_terminal(*old(state), subject_terminated) ==> old(state).ref_count < usize::MAX,
        ensures
            replays_terminal(*old(state), subject_terminated) ==> {
                &&& r.0 matches ShareJoin::Replayed(t) && terminal_cloned(old(state).terminal->0, t)
                &&& r.1 == (ShareSubscription { joined: false, generation: 0 })
                &&& *final(state) == *old(state)
            },
            !replays_terminal(*old(state), subject_terminated) ==> {
                &&& r.0 == ShareJoin::<E>::Joined { generation: old(state).generation }
                &&& r.1 == (ShareSubscription { joined: true, generation: old(state).generation })
                &&& old(state).subject is None ==> (final(state).subject matches Some(subject)
                    && Conn::creates(old(state).connector, final(state).connector, subject))
                &&& old(state).subject is Some ==> final(state).subject == old(state).subject
                    && final(state).connector == old(state).connector
                &&& final(state).config == old(state).config
                &&& final(state).connected == old(state).connected
                &&& final(state).terminal == old(state).terminal
                &&& final(state).ref_count == old(state).ref_count + 1
                &&& final(state).generation == old(state).generation
            },
    {
        let replay = match (&state.terminal, &state.subject) {
            (Some(terminal), Some(_)) => if !subject_terminated {
                Some(clone_terminal(terminal))
            } else {
                None
            },
            (Some(terminal), None) => Some(clone_terminal(terminal)),
            _ => None,
        };
        if let Some(terminal) = replay {
            return (ShareJoin::Replayed(terminal), ShareSubscription { joined: false, generation: 0 });
        }
        if state.subject.is_none() {
            let subject = state.connector.create();
            state.subject = Some(subject);
        }
        state.ref_count = state.ref_count + 1;
        let generation = state.generation;
        (ShareJoin::Joined { generation }, ShareSubscription { joined: true, generation })
    }
}

/// Feeds the source into the current subject and applies the reset policy on
/// terminal events.
pub struct ShareSourceObserver {
    pub generation: usize,
}

impl ShareSourceObserver {
    /// Items go straight to the subject.
    pub fn next<Item>(&self, value: Item) -> (forwarded: Item)
        ensures
            forwarded == value,
    {
        value
    }

    /// The error goes to the subject; a current connection ends and is reset
    /// or, without `reset_on_error`, keeps the error for late subscribers.
    pub fn error<Conn, Sub, E: Clone>(self, state: &mut ShareState<Conn, Sub, E>, err: E) -> (forwarded: E)
        requires
            old(state).generation < usize::MAX,
        ensures
            forwarded == err,
            old(state).generation != self.generation ==> *final(state) == *old(state),
            old(state).generation == self.generation && old(state).config.reset_on_error
                ==> *final(state) == reset_spec(*old(state)),
            old(state).generation == self.generation && !old(state).config.reset_on_error ==> {
                &&& final(state).terminal matches Some(Terminal::Error(e)) && vstd::pervasive::cloned(err, e)
                &&& *final(state) == (ShareState { connected: false, terminal: final(state).terminal, ..*old(state) })
            },
    {
        if state.generation == self.generation {
            state.connected = false;
            if state.config.reset_on_error {
                state.reset();
            } else {
                state.terminal = Some(Terminal::Error(err.clone()));
            }
        }
        err
    }

    /// The completion goes to the subject; a current connection ends and is
    /// reset or, without `reset_on_complete`, kept for late subscribers.
    pub fn complete<Conn, Sub, E>(self, state: &mut ShareState<Conn, Sub, E>)
        requires
            old(state).generation < usize::MAX,
        ensures
            *final(state) == complete_spec(*old(state), self.generation),
    {
        if state.generation == self.generation {
            state.connected = false;
            if state.config.reset_on_complete {
                state.reset();
            } else {
                state.terminal = Some(Terminal::Complete);
            }
        }
    }

    /// Closed only once this connection was reset; an idle subject keeps the
    /// source alive.
    pub fn is_closed<Conn, Sub, E>(&self, state: &ShareState<Conn, Sub, E>) -> (b: bool)
        ensures
            b == (state.generation != self.generation),
    {
        state.generation != self.generation
    }
}

impl ShareSubscription {
    /// Leaves the share. Returns true when the source connection must be
    /// cancelled: this was the last subscriber of the current generation, the
    /// configuration resets on ref count zero and a connection was live.
    pub fn unsubscribe<Conn, Sub, E>(self, state: &mut ShareState<Conn, Sub, E>) -> (cancel: bool)
        requires
            old(state).generation < usize::MAX,
        ensures
            (cancel, *final(state)) == unsubscribe_spec(self, *old(state)),
    {
        if !self.joined {
            return false;
        }
        if state.generation != self.generation {
            return false;
        }
        state.ref_count = if state.ref_count == 0 { 0 } else { state.ref_count - 1 };
        if state.ref_count == 0 && state.config.reset_on_ref_count_zero {
            let cancel = state.connected;
            state.reset();
            cancel
        } else {
            false
        }
    }

    /// Closed when the subscriber only received a replayed terminal, or when
    /// its subject subscription is closed (`inner_closed`).
    pub fn is_closed(&self, inner_closed: bool) -> (b: bool)
        ensures
            b == (!self.joined || inner_closed),
    {
        !self.joined || inner_closed
    }
}

/// A shared source is subscribed once per connection: once the first
/// subscriber has recorded its connection, neither it nor any subscriber
/// that joins afterwards is asked to subscribe the source again.
pub proof fn lemma_share_connects_once<Conn, Sub, E>(s: ShareState<Conn, Sub, E>, generation: usize, other: usize)
    requires
        needs_connect_spec(s, generation),
        s.ref_count < usize::MAX,
    ensures
        !needs_connect_spec(record_connection_spec(s, generation), other),
        !needs_connect_spec(join_spec(record_connection_spec(s, generation)), other),
{
}

/// When the last subscriber leaves and the configuration resets on ref count
/// zero, the live source connection is cancelled, the old connection's
/// observer stands down, and the next subscriber starts afresh: it receives
/// no replayed terminal and subscribes the source again.
pub proof fn lemma_last_unsubscribe_restarts<Conn, Sub, E>(
    sub: ShareSubscription,
    s: ShareState<Conn, Sub, E>,
    subject_terminated: bool,
)
    requires
        sub.joined,
        sub.generation == s.generation,
        s.ref_count == 1,
        s.config.reset_on_ref_count_zero,
        s.generation < usize::MAX,
    ensures
        ({
            let (cancel, t) = unsubscribe_spec(sub, s);
            &&& cancel == s.connected
            &&& t.generation != sub.generation
            &&& !replays_terminal(t, subject_terminated)
            &&& needs_connect_spec(join_spec(t), t.generation)
        }),
{
}

/// After the source completes, a configuration that resets on completion
/// makes the next subscriber resubscribe the source; one that does not keeps
/// the completion, replays it to late subscribers and never resubscribes.
pub proof fn lemma_completion_resets_or_replays<Conn, Sub, E>(s: ShareState<Conn, Sub, E>, other: usize)
    requires
        s.generation < usize::MAX,
    ensures
        ({
            let t = complete_spec(s, s.generation);
            &&& s.config.reset_on_complete ==> !replays_terminal(t, false) && needs_connect_spec(
                join_spec(t),
                t.generation,
            )
            &&& !s.config.reset_on_complete ==> t.terminal == Some(Terminal::<E>::Complete)
                && replays_terminal(t, false) && !needs_connect_spec(t, other)
        }),
{
}

/// A handle that only received a replayed terminal never joined the
/// subject: leaving with it cancels nothing and leaves the share exactly as
/// it was, whatever its generation. So late subscribers to a source that
/// ended without a reset can come and go: each is answered with the same
/// terminal, and the source is never subscribed again.
pub proof fn lemma_replayed_handle_leaves_no_trace<Conn, Sub, E>(
    s: ShareState<Conn, Sub, E>,
    generation: usize,
    subject_terminated: bool,
)
    ensures
        unsubscribe_spec(ShareSubscription { joined: false, generation }, s) == (false, s),
        replays_terminal(s, subject_terminated) ==> ({
            let (cancel, t) = unsubscribe_spec(ShareSubscription { joined: false, generation }, s);
            &&& !cancel
            &&& replays_terminal(t, subject_terminated)
            &&& t.terminal == s.terminal
            &&& forall|g: usize| !needs_connect_spec(t, g)
        }),
{
}

} // verus!
