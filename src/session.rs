use vstd::prelude::*;
use vstd::utf8::{decode_utf8, valid_utf8};

use crate::events::{event_relevant, is_relevant, Notification};
use crate::handoff::UpdateWorkspaces;
use crate::projection::{projected, workspaces_from_state, ProjectError};
use crate::state::Classification;

verus! {

/// The subscriber channel of a debug build, so that it does not collide
/// with an installed release build.
pub const DEBUG_CHANNEL: &'static str = "komorebi-switcher-debug.sock";

/// The subscriber channel of a release build.
pub const RELEASE_CHANNEL: &'static str = "komorebi-switcher.sock";

/// Pause between two attempts to subscribe, in milliseconds.
pub const CONNECT_RETRY_MS: u64 = 1000;

/// Pause between two attempts to register again after the daemon went away,
/// in milliseconds.
pub const RECONNECT_RETRY_MS: u64 = 3000;

/// How long a read on an accepted connection may block, in milliseconds.
pub const READ_TIMEOUT_MS: u64 = 1000;

/// What the session is configured with, instead of process-wide constants.
#[derive(Clone, Debug)]
pub struct SessionConfig {
    /// The name under which this process subscribes.
    pub channel_name: String,
    pub connect_retry_ms: u64,
    pub reconnect_retry_ms: u64,
    pub read_timeout_ms: u64,
    /// Whether the daemon is asked to send only state-changing notifications.
    /// The relevance filter applies either way.
    pub filter_state_changes: bool,
}

impl SessionConfig {
    /// The configuration of a debug or a release build.
    pub fn new(debug: bool) -> (r: Self)
        ensures
            debug ==> r.channel_name@ == DEBUG_CHANNEL@,
            !debug ==> r.channel_name@ == RELEASE_CHANNEL@,
            r.connect_retry_ms == CONNECT_RETRY_MS,
            r.reconnect_retry_ms == RECONNECT_RETRY_MS,
            r.read_timeout_ms == READ_TIMEOUT_MS,
            r.filter_state_changes,
    {
        let channel_name = if debug {
            String::from_str(DEBUG_CHANNEL)
        } else {
            String::from_str(RELEASE_CHANNEL)
        };
        SessionConfig {
            channel_name,
            connect_retry_ms: CONNECT_RETRY_MS,
            reconnect_retry_ms: RECONNECT_RETRY_MS,
            read_timeout_ms: READ_TIMEOUT_MS,
            filter_state_changes: true,
        }
    }
}

/// Why a message read from the daemon could not be decoded.
#[derive(Clone, Copy, Debug, PartialEq, Eq, Structural)]
pub enum DecodeError {
    /// The bytes are not UTF-8.
    InvalidUtf8,
    /// The text is not a well-formed document.
    MalformedDocument,
    /// The document is not a notification.
    UnrecognizedEnvelope,
}

/// Relies on std's `String::from_utf8`: it accepts exactly the well-formed
/// UTF-8 byte strings, and the text has the characters they encode.
#[verifier::external_body]
fn string_from_utf8(bytes: Vec<u8>) -> (r: Option<String>)
    ensures
        r is Some <==> valid_utf8(bytes@),
        r matches Some(s) ==> s@ == decode_utf8(bytes@),
{
    String::from_utf8(bytes).ok()
}

/// Reads the bytes of a message as text.
pub fn decode_text(bytes: Vec<u8>) -> (r: Result<String, DecodeError>)
    ensures
        r is Ok <==> valid_utf8(bytes@),
        r matches Ok(s) ==> s@ == decode_utf8(bytes@),
        r matches Err(e) ==> e == DecodeError::InvalidUtf8,
{
    match string_from_utf8(bytes) {
        Some(s) => Ok(s),
        None => Err(DecodeError::InvalidUtf8),
    }
}

/// Where the subscription stands.
#[derive(Clone, Copy, Debug, PartialEq, Eq, Structural)]
pub enum SessionState {
    /// Not yet subscribed.
    Connecting,
    /// Subscribed, waiting for the daemon's next connection.
    Listening,
    /// The daemon closed a connection without data: it went away.
    Disconnected,
    /// Asked to stop.
    Stopped,
}

/// What happened since the last action.
#[derive(Debug)]
pub enum SessionEvent {
    /// The subscribe call succeeded.
    Subscribed,
    /// The subscribe call failed.
    SubscribeFailed,
    /// Waiting for the next connection failed.
    AcceptFailed,
    /// A connection gave zero bytes before it closed.
    PeerClosed,
    /// A connection gave a message, decoded or not.
    Received(Result<Notification, DecodeError>),
    /// Registering again as a subscriber succeeded.
    Reregistered,
    /// Registering again as a subscriber failed.
    ReregisterFailed,
    /// The host wants the worker to end.
    StopRequested,
}

/// Why a message or a connection led to no delivery.
#[derive(Clone, Copy, Debug, PartialEq, Eq, Structural)]
pub enum SkipReason {
    Decode(DecodeError),
    /// The event cannot alter the displayed slots.
    Irrelevant,
    /// The daemon had no focused monitor.
    NoFocusedMonitor,
    AcceptFailed,
}

/// What the worker does next. After `Deliver` and `Skip` it waits for the
/// next connection, as after `Accept`.
#[derive(Debug)]
pub enum SessionAction {
    /// Subscribe after the given pause.
    Subscribe { delay_ms: u64 },
    /// Wait for the daemon's next connection.
    Accept,
    /// Register again as a subscriber after the given pause.
    Reregister { delay_ms: u64 },
    /// Hand this snapshot to the display.
    Deliver(UpdateWorkspaces),
    /// Log why and drop the message.
    Skip(SkipReason),
    /// End the worker.
    Stop,
}

/// The abstract value of an action.
pub enum ActionView {
    Subscribe { delay_ms: u64 },
    Accept,
    Reregister { delay_ms: u64 },
    Deliver(Seq<(Seq<char>, Classification)>),
    Skip(SkipReason),
    Stop,
}

impl View for SessionAction {
    type V = ActionView;

    open spec fn view(&self) -> ActionView {
        match self {
            SessionAction::Subscribe { delay_ms } => ActionView::Subscribe { delay_ms: *delay_ms },
            SessionAction::Accept => ActionView::Accept,
            SessionAction::Reregister { delay_ms } => ActionView::Reregister { delay_ms: *delay_ms },
            SessionAction::Deliver(u) => ActionView::Deliver(u@),
            SessionAction::Skip(r) => ActionView::Skip(*r),
            SessionAction::Stop => ActionView::Stop,
        }
    }
}

/// What a decoded notification leads to: nothing for an irrelevant event,
/// else the projected snapshot, or nothing when the daemon has no focused
/// monitor.
pub open spec fn notification_outcome(n: Notification) -> ActionView {
    if !event_relevant(n.event) {
        ActionView::Skip(SkipReason::Irrelevant)
    } else {
        match projected(n.state) {
            Some(slots) => ActionView::Deliver(slots),
            None => ActionView::Skip(SkipReason::NoFocusedMonitor),
        }
    }
}

/// What a message read while listening leads to.
pub open spec fn message_outcome(m: Result<Notification, DecodeError>) -> ActionView {
    match m {
        Ok(n) => notification_outcome(n),
        Err(d) => ActionView::Skip(SkipReason::Decode(d)),
    }
}

/// The state after an event.
pub open spec fn next_state(s: SessionState, e: SessionEvent) -> SessionState {
    if e is StopRequested {
        SessionState::Stopped
    } else {
        match s {
            SessionState::Connecting => if e is Subscribed {
                SessionState::Listening
            } else {
                SessionState::Connecting
            },
            SessionState::Listening => if e is PeerClosed {
                SessionState::Disconnected
            } else {
                SessionState::Listening
            },
            SessionState::Disconnected => if e is Reregistered {
                SessionState::Listening
            } else {
                SessionState::Disconnected
            },
            SessionState::Stopped => SessionState::Stopped,
        }
    }
}

/// The action after an event. An event that does not belong to the state
/// leaves the state's pending work to be done again.
pub open spec fn next_action(cfg: SessionConfig, s: SessionState, e: SessionEvent) -> ActionView {
    if e is StopRequested {
        ActionView::Stop
    } else {
        match s {
            SessionState::Connecting => if e is Subscribed {
                ActionView::Accept
            } else {
                ActionView::Subscribe { delay_ms: cfg.connect_retry_ms }
            },
            SessionState::Listening => match e {
                SessionEvent::PeerClosed => ActionView::Reregister { delay_ms: 0 },
                SessionEvent::AcceptFailed => ActionView::Skip(SkipReason::AcceptFailed),
                SessionEvent::Received(m) => message_outcome(m),
                _ => ActionView::Accept,
            },
            SessionState::Disconnected => if e is Reregistered {
                ActionView::Accept
            } else {
                ActionView::Reregister { delay_ms: cfg.reconnect_retry_ms }
            },
            SessionState::Stopped => ActionView::Stop,
        }
    }
}

/// The states after each event of a run.
pub open spec fn run_states(s: SessionState, evs: Seq<SessionEvent>) -> Seq<SessionState>
    decreases evs.len(),
{
    if evs.len() == 0 {
        Seq::empty()
    } else {
        let t = next_state(s, evs[0]);
        seq![t] + run_states(t, evs.drop_first())
    }
}

/// The actions after each event of a run.
pub open spec fn run_actions(cfg: SessionConfig, s: SessionState, evs: Seq<SessionEvent>) -> Seq<
    ActionView,
>
    decreases evs.len(),
{
    if evs.len() == 0 {
        Seq::empty()
    } else {
        seq![next_action(cfg, s, evs[0])] + run_actions(cfg, next_state(s, evs[0]), evs.drop_first())
    }
}

/// Projects a decoded notification if its event is relevant.
pub fn notification_update(n: &Notification) -> (r: Result<UpdateWorkspaces, SkipReason>)
    ensures
        match r {
            Ok(u) => notification_outcome(*n) == ActionView::Deliver(u@),
            Err(reason) => notification_outcome(*n) == ActionView::Skip(reason),
        },
{
    if !is_relevant(n.event) {
        return Err(SkipReason::Irrelevant);
    }
    match workspaces_from_state(&n.state) {
        Ok(workspaces) => Ok(UpdateWorkspaces::new(workspaces)),
        Err(ProjectError::NoFocusedMonitor) => Err(SkipReason::NoFocusedMonitor),
    }
}

/// The subscription's decisions: the worker performs each action and hands
/// back what came of it.
#[derive(Debug)]
pub struct Session {
    pub config: SessionConfig,
    pub state: SessionState,
}

impl Session {
    /// A session that has yet to subscribe; the worker's first action is to
    /// subscribe at once.
    pub fn new(config: SessionConfig) -> (r: Self)
        ensures
            r.config == config,
            r.state == SessionState::Connecting,
    {
        Session { config, state: SessionState::Connecting }
    }

    /// Moves the session on by one event and says what to do next.
    pub fn step(&mut self, event: SessionEvent) -> (a: SessionAction)
        ensures
            final(self).config == old(self).config,
            final(self).state == next_state(old(self).state, event),
            a@ == next_action(old(self).config, old(self).state, event),
    {
        let ghost e = event;
        let (state, action) = match event {
            SessionEvent::StopRequested => (SessionState::Stopped, SessionAction::Stop),
            _ => match self.state {
                SessionState::Connecting => match event {
                    SessionEvent::Subscribed => (SessionState::Listening, SessionAction::Accept),
                    _ => (
                        SessionState::Connecting,
                        SessionAction::Subscribe { delay_ms: self.config.connect_retry_ms },
                    ),
                },
                SessionState::Listening => match event {
                    SessionEvent::PeerClosed => (
                        SessionState::Disconnected,
                        SessionAction::Reregister { delay_ms: 0 },
                    ),
                    SessionEvent::AcceptFailed => (
                        SessionState::Listening,
                        SessionAction::Skip(SkipReason::AcceptFailed),
                    ),
                    SessionEvent::Received(Err(d)) => (
                        SessionState::Listening,
                        SessionAction::Skip(SkipReason::Decode(d)),
                    ),
                    SessionEvent::Received(Ok(n)) => match notification_update(&n) {
                        Ok(u) => (SessionState::Listening, SessionAction::Deliver(u)),
                        Err(reason) => (SessionState::Listening, SessionAction::Skip(reason)),
                    },
                    _ => (SessionState::Listening, SessionAction::Accept),
                },
                SessionState::Disconnected => match event {
                    SessionEvent::Reregistered => (SessionState::Listening, SessionAction::Accept),
                    _ => (
                        SessionState::Disconnected,
                        SessionAction::Reregister { delay_ms: self.config.reconnect_retry_ms },
                    ),
                },
                SessionState::Stopped => (SessionState::Stopped, SessionAction::Stop),
            },
        };
        self.state = state;
        action
    }
}

/// The state at the end of a run.
pub open spec fn state_after(s: SessionState, evs: Seq<SessionEvent>) -> SessionState
    decreases evs.len(),
{
    if evs.len() == 0 {
        s
    } else {
        state_after(next_state(s, evs[0]), evs.drop_first())
    }
}

/// What an event leads to while listening, where it is a message.
pub open spec fn received_outcome(e: SessionEvent) -> ActionView {
    match e {
        SessionEvent::Received(m) => message_outcome(m),
        _ => ActionView::Accept,
    }
}

proof fn lemma_run_append(cfg: SessionConfig, s: SessionState, a: Seq<SessionEvent>, b: Seq<SessionEvent>)
    ensures
        run_states(s, a + b) == run_states(s, a) + run_states(state_after(s, a), b),
        run_actions(cfg, s, a + b) == run_actions(cfg, s, a) + run_actions(cfg, state_after(s, a), b),
        state_after(s, a + b) == state_after(state_after(s, a), b),
    decreases a.len(),
{
    if a.len() == 0 {
        assert(a + b =~= b);
        assert(run_states(s, a) + run_states(s, b) =~= run_states(s, b));
        assert(run_actions(cfg, s, a) + run_actions(cfg, s, b) =~= run_actions(cfg, s, b));
    } else {
        assert((a + b)[0] == a[0]);
        assert((a + b).drop_first() =~= a.drop_first() + b);
        lemma_run_append(cfg, next_state(s, a[0]), a.drop_first(), b);
        assert(run_states(s, a + b) =~= run_states(s, a) + run_states(state_after(s, a), b));
        assert(run_actions(cfg, s, a + b) =~= run_actions(cfg, s, a) + run_actions(
            cfg,
            state_after(s, a),
            b,
        ));
    }
}

proof fn lemma_failed_reregistrations(cfg: SessionConfig, n: nat)
    ensures
        run_states(SessionState::Disconnected, Seq::new(n, |i: int| SessionEvent::ReregisterFailed))
            == Seq::new(n, |i: int| SessionState::Disconnected),
        run_actions(cfg, SessionState::Disconnected, Seq::new(n, |i: int| SessionEvent::ReregisterFailed))
            == Seq::new(n, |i: int| ActionView::Reregister { delay_ms: cfg.reconnect_retry_ms }),
        state_after(SessionState::Disconnected, Seq::new(n, |i: int| SessionEvent::ReregisterFailed))
            == SessionState::Disconnected,
    decreases n,
{
    let evs = Seq::new(n, |i: int| SessionEvent::ReregisterFailed);
    if n > 0 {
        let rest = Seq::new((n - 1) as nat, |i: int| SessionEvent::ReregisterFailed);
        assert(evs.drop_first() =~= rest);
        lemma_failed_reregistrations(cfg, (n - 1) as nat);
        assert(run_states(SessionState::Disconnected, evs) =~= Seq::new(
            n,
            |i: int| SessionState::Disconnected,
        ));
        assert(run_actions(cfg, SessionState::Disconnected, evs) =~= Seq::new(
            n,
            |i: int| ActionView::Reregister { delay_ms: cfg.reconnect_retry_ms },
        ));
    } else {
        assert(run_states(SessionState::Disconnected, evs) =~= Seq::new(
            n,
            |i: int| SessionState::Disconnected,
        ));
        assert(run_actions(cfg, SessionState::Disconnected, evs) =~= Seq::new(
            n,
            |i: int| ActionView::Reregister { delay_ms: cfg.reconnect_retry_ms },
        ));
    }
}

/// While listening, any run of messages, decoded or not, keeps the session
/// listening, and each message leads to exactly its own outcome, in order: a
/// message that could not be decoded is skipped and the next one is still
/// taken.
pub proof fn lemma_malformed_input_resilience(cfg: SessionConfig, msgs: Seq<SessionEvent>)
    requires
        forall|i: int| 0 <= i < msgs.len() ==> #[trigger] msgs[i] is Received,
    ensures
        run_states(SessionState::Listening, msgs) == Seq::new(
            msgs.len(),
            |i: int| SessionState::Listening,
        ),
        run_actions(cfg, SessionState::Listening, msgs) == msgs.map_values(
            |e: SessionEvent| received_outcome(e),
        ),
        state_after(SessionState::Listening, msgs) == SessionState::Listening,
    decreases msgs.len(),
{
    if msgs.len() > 0 {
        let rest = msgs.drop_first();
        assert forall|i: int| 0 <= i < rest.len() implies #[trigger] rest[i] is Received by {
            assert(rest[i] == msgs[i + 1]);
        }
        assert(msgs[0] is Received);
        lemma_malformed_input_resilience(cfg, rest);
        assert(run_states(SessionState::Listening, msgs) =~= Seq::new(
            msgs.len(),
            |i: int| SessionState::Listening,
        ));
        assert(run_actions(cfg, SessionState::Listening, msgs) =~= msgs.map_values(
            |e: SessionEvent| received_outcome(e),
        ));
    } else {
        assert(run_states(SessionState::Listening, msgs) =~= Seq::new(
            msgs.len(),
            |i: int| SessionState::Listening,
        ));
        assert(run_actions(cfg, SessionState::Listening, msgs) =~= msgs.map_values(
            |e: SessionEvent| received_outcome(e),
        ));
    }
}

/// A connection that closes without data, then `failures` failed attempts to
/// register again and one that succeeds, take the session from listening to
/// disconnected and back to listening once; each message that follows leads
/// to exactly its own outcome, none dropped and none repeated.
pub proof fn lemma_reconnect_convergence(cfg: SessionConfig, failures: nat, later: Seq<SessionEvent>)
    requires
        forall|i: int| 0 <= i < later.len() ==> #[trigger] later[i] is Received,
    ensures
        ({
            let evs = seq![SessionEvent::PeerClosed] + Seq::new(
                failures,
                |i: int| SessionEvent::ReregisterFailed,
            ) + seq![SessionEvent::Reregistered] + later;
            &&& run_states(SessionState::Listening, evs) == Seq::new(
                failures + 1,
                |i: int| SessionState::Disconnected,
            ) + Seq::new(later.len() + 1, |i: int| SessionState::Listening)
            &&& run_actions(cfg, SessionState::Listening, evs) == seq![
                ActionView::Reregister { delay_ms: 0 },
            ] + Seq::new(
                failures,
                |i: int| ActionView::Reregister { delay_ms: cfg.reconnect_retry_ms },
            ) + seq![ActionView::Accept] + later.map_values(|e: SessionEvent| received_outcome(e))
        }),
{
    let closed = seq![SessionEvent::PeerClosed];
    let fails = Seq::new(failures, |i: int| SessionEvent::ReregisterFailed);
    let back = seq![SessionEvent::Reregistered];
    let l = SessionState::Listening;
    let d = SessionState::Disconnected;
    lemma_failed_reregistrations(cfg, failures);
    lemma_malformed_input_resilience(cfg, later);
    assert(closed[0] == SessionEvent::PeerClosed);
    assert(back[0] == SessionEvent::Reregistered);
    assert(closed.drop_first() =~= Seq::<SessionEvent>::empty());
    assert(back.drop_first() =~= Seq::<SessionEvent>::empty());
    assert(state_after(d, closed.drop_first()) == d);
    assert(state_after(l, back.drop_first()) == l);
    assert(run_states(d, closed.drop_first()) =~= Seq::<SessionState>::empty());
    assert(run_actions(cfg, d, closed.drop_first()) =~= Seq::<ActionView>::empty());
    assert(run_states(l, back.drop_first()) =~= Seq::<SessionState>::empty());
    assert(run_actions(cfg, l, back.drop_first()) =~= Seq::<ActionView>::empty());
    assert(run_states(l, closed) =~= seq![d]);
    assert(run_actions(cfg, l, closed) =~= seq![ActionView::Reregister { delay_ms: 0 }]);
    assert(state_after(l, closed) == d);
    assert(run_states(d, back) =~= seq![l]);
    assert(run_actions(cfg, d, back) =~= seq![ActionView::Accept]);
    assert(state_after(d, back) == l);
    lemma_run_append(cfg, l, closed, fails);
    lemma_run_append(cfg, l, closed + fails, back);
    lemma_run_append(cfg, l, closed + fails + back, later);
    assert(run_states(l, closed + fails + back + later) =~= Seq::new(
        failures + 1,
        |i: int| SessionState::Disconnected,
    ) + Seq::new(later.len() + 1, |i: int| SessionState::Listening));
    assert(run_actions(cfg, l, closed + fails + back + later) =~= seq![
        ActionView::Reregister { delay_ms: 0 },
    ] + Seq::new(failures, |i: int| ActionView::Reregister { delay_ms: cfg.reconnect_retry_ms })
        + seq![ActionView::Accept] + later.map_values(|e: SessionEvent| received_outcome(e)));
}

} // verus!
