//! The command channel: one bus session that keeps a subscription alive,
//! decodes commands and reports connectivity. The session is a state
//! machine: the caller polls the transport, hands each event in, and carries
//! out the actions that come back, in order. Where an action cannot be
//! carried out because a queue is closed, the caller drops the rest and
//! reports the failed hand-off as the next event.

use vstd::prelude::*;
use vstd::string::*;
use crate::command::{AppCommand, CommandView};
use crate::text::join;
use crate::wire::{classify_topic, command_filter, decode_payload, decoded_payload, status_topic, topic_kind};

verus! {

/// Where a session stands.
#[derive(Debug, Clone, Copy, PartialEq, Eq, Structural)]
pub enum SessionState {
    /// Not opened yet.
    Disconnected,
    /// Opened and subscribed, the broker has not acknowledged yet.
    Connecting,
    /// Acknowledged and subscribed.
    Connected,
    /// Was connected; the transport has failed since and has not recovered.
    Degraded,
    /// Left for good, on a shutdown or because a hand-off failed. Shutting
    /// down takes one turn of the loop, so no state stands for it.
    Stopped,
}

/// How long to wait after a transport error. A run of errors that no
/// success breaks waits the base until the count of errors reaches the
/// threshold, and the ceiling from that error on; the waits of a run never
/// shorten. A success, a message or an acknowledged connection, ends the run.
#[derive(Debug, Clone, Copy, PartialEq, Eq)]
pub struct BackoffPolicy {
    /// The count of unbroken errors at which the long wait sets in.
    pub threshold: u32,
    /// The short wait, in seconds.
    pub base_secs: u64,
    /// The long wait, in seconds.
    pub ceiling_secs: u64,
}

impl BackoffPolicy {
    /// A usable policy has a threshold of at least one error and a long wait
    /// that is longer than the short one.
    pub open spec fn valid(self) -> bool {
        self.threshold >= 1 && self.base_secs < self.ceiling_secs
    }

    /// Whether the policy is usable.
    pub fn is_valid(&self) -> (usable: bool)
        ensures
            usable == self.valid(),
    {
        self.threshold >= 1 && self.base_secs < self.ceiling_secs
    }

    /// Three errors in a row, one second, five seconds.
    pub fn standard() -> (policy: BackoffPolicy)
        ensures
            policy.valid(),
            policy == (BackoffPolicy { threshold: 3, base_secs: 1, ceiling_secs: 5 }),
    {
        BackoffPolicy { threshold: 3, base_secs: 1, ceiling_secs: 5 }
    }

    /// Whether the long wait is due after one more error: it is once the
    /// count of errors reaches the threshold, and from then on for every
    /// further error of the unbroken run, which `escalated` tells.
    pub open spec fn escalated_after(self, errors: nat, escalated: bool) -> bool {
        escalated || errors + 1 >= self.threshold
    }

    /// The wait after one more error, when `errors` were counted before it
    /// and `escalated` tells whether the run has reached the threshold before.
    pub open spec fn wait_after(self, errors: nat, escalated: bool) -> u64 {
        if self.escalated_after(errors, escalated) {
            self.ceiling_secs
        } else {
            self.base_secs
        }
    }

    /// The count of errors after one more error: it starts over once the
    /// threshold is reached.
    pub open spec fn errors_after(self, errors: nat) -> nat {
        if errors + 1 >= self.threshold {
            0
        } else {
            errors + 1
        }
    }
}

/// Settings with which the transport is opened.
#[derive(Debug, Clone, Copy, PartialEq, Eq)]
pub struct SessionOptions {
    pub keep_alive_secs: u64,
    /// `false`: the broker keeps the session across reconnects.
    pub clean_session: bool,
    pub connection_timeout_secs: u64,
    pub max_packet_size: usize,
    pub pending_throttle_millis: u64,
    /// How many requests may wait between client and event loop.
    pub request_capacity: usize,
}

/// Something the transport or the surrounding task reports.
#[derive(Debug, Clone, PartialEq, Eq)]
pub enum SessionEvent {
    /// The session's loop begins.
    Opened,
    /// The broker acknowledged a connection.
    ConnAck,
    /// A message arrived.
    Publish { topic: String, payload: Vec<u8> },
    /// Any other traffic: outgoing packets, ping responses.
    Other,
    /// The transport failed.
    TransportError,
    /// The shutdown signal fired.
    Shutdown,
    /// A queue toward the orchestrator, or the client's request queue, is closed.
    HandOffFailed,
}

/// An event with its strings taken as characters.
pub enum SessionEventView {
    Opened,
    ConnAck,
    Publish { topic: Seq<char>, payload: Seq<u8> },
    Other,
    TransportError,
    Shutdown,
    HandOffFailed,
}

impl View for SessionEvent {
    type V = SessionEventView;

    open spec fn view(&self) -> SessionEventView {
        match self {
            SessionEvent::Opened => SessionEventView::Opened,
            SessionEvent::ConnAck => SessionEventView::ConnAck,
            SessionEvent::Publish { topic, payload } => SessionEventView::Publish { topic: topic@, payload: payload@ },
            SessionEvent::Other => SessionEventView::Other,
            SessionEvent::TransportError => SessionEventView::TransportError,
            SessionEvent::Shutdown => SessionEventView::Shutdown,
            SessionEvent::HandOffFailed => SessionEventView::HandOffFailed,
        }
    }
}

/// Why a message was dropped.
#[derive(Debug, Clone, Copy, PartialEq, Eq, Structural)]
pub enum DiscardReason {
    /// The topic is none of the command topics.
    UnknownTopic,
    /// The payload is not a command of the topic's kind.
    Malformed,
}

/// Something the caller has to do for the session.
#[derive(Debug, Clone, PartialEq, Eq)]
pub enum SessionAction {
    /// Subscribe to `filter`, at least once.
    Subscribe { filter: String },
    /// Tell the orchestrator whether the bus is reachable.
    Status(bool),
    /// Hand the command to the orchestrator.
    Forward(AppCommand),
    /// Log one warning: a message was dropped.
    Discard(DiscardReason),
    /// Sleep for `secs` seconds before polling again.
    Wait { secs: u64 },
    /// Leave the loop; `clean` tells a shutdown from a failure.
    Return { clean: bool },
}

/// An action with its strings taken as characters.
pub enum SessionActionView {
    Subscribe { filter: Seq<char> },
    Status(bool),
    Forward(CommandView),
    Discard(DiscardReason),
    Wait { secs: u64 },
    Return { clean: bool },
}

impl View for SessionAction {
    type V = SessionActionView;

    open spec fn view(&self) -> SessionActionView {
        match self {
            SessionAction::Subscribe { filter } => SessionActionView::Subscribe { filter: filter@ },
            SessionAction::Status(up) => SessionActionView::Status(*up),
            SessionAction::Forward(command) => SessionActionView::Forward(command@),
            SessionAction::Discard(reason) => SessionActionView::Discard(*reason),
            SessionAction::Wait { secs } => SessionActionView::Wait { secs: *secs },
            SessionAction::Return { clean } => SessionActionView::Return { clean: *clean },
        }
    }
}

/// The views of `actions`, in order.
pub open spec fn session_action_views(actions: Seq<SessionAction>) -> Seq<SessionActionView> {
    actions.map_values(|a: SessionAction| a@)
}

/// A status message to publish.
#[derive(Debug, Clone, PartialEq, Eq)]
pub struct StatusReport {
    pub topic: String,
    pub payload: String,
}

/// What a session is, as far as its behaviour goes.
pub struct SessionView {
    pub broker: Seq<char>,
    pub port: u16,
    pub client_id: Seq<char>,
    pub state: SessionState,
    /// Transport errors counted since the last success or since the count
    /// last reached the threshold.
    pub consecutive_errors: nat,
    /// Whether the unbroken run of errors has reached the threshold: from
    /// then until the next success every error waits the ceiling.
    pub escalated: bool,
    pub policy: BackoffPolicy,
}

/// What a session does with a message: a command topic's payload is decoded
/// and forwarded once, or dropped where it denotes no command; a message on
/// any other topic is dropped.
pub open spec fn message_actions(topic: Seq<char>, payload: Seq<u8>) -> Seq<SessionActionView> {
    match topic_kind(topic) {
        Some(kind) => match decoded_payload(kind, payload) {
            Some(command) => seq![SessionActionView::Forward(command)],
            None => seq![SessionActionView::Discard(DiscardReason::Malformed)],
        },
        None => seq![SessionActionView::Discard(DiscardReason::UnknownTopic)],
    }
}

impl SessionView {
    /// The policy is usable, the identity is not empty, and the error count
    /// has not reached the threshold.
    pub open spec fn wf(self) -> bool {
        &&& self.policy.valid()
        &&& self.client_id.len() > 0
        &&& self.consecutive_errors < self.policy.threshold
    }

    /// The session after `event`. A stopped session stays as it is.
    pub open spec fn after(self, event: SessionEventView) -> SessionView {
        if self.state == SessionState::Stopped {
            self
        } else {
            match event {
                SessionEventView::Opened => if self.state == SessionState::Disconnected {
                    SessionView { state: SessionState::Connecting, ..self }
                } else {
                    self
                },
                SessionEventView::ConnAck => SessionView {
                    state: SessionState::Connected,
                    consecutive_errors: 0,
                    escalated: false,
                    ..self
                },
                SessionEventView::Publish { .. } => SessionView { consecutive_errors: 0, escalated: false, ..self },
                SessionEventView::Other => self,
                SessionEventView::TransportError => SessionView {
                    state: if self.state == SessionState::Connected {
                        SessionState::Degraded
                    } else {
                        self.state
                    },
                    consecutive_errors: self.policy.errors_after(self.consecutive_errors),
                    escalated: self.policy.escalated_after(self.consecutive_errors, self.escalated),
                    ..self
                },
                SessionEventView::Shutdown => SessionView { state: SessionState::Stopped, ..self },
                SessionEventView::HandOffFailed => SessionView { state: SessionState::Stopped, ..self },
            }
        }
    }

    /// What the caller has to do on `event`, in order. A failed hand-off
    /// ends the loop with a failure whenever it is reported, also after a
    /// shutdown whose last report could not be handed over; a stopped session
    /// answers nothing else.
    pub open spec fn actions_on(self, event: SessionEventView) -> Seq<SessionActionView> {
        if event is HandOffFailed {
            seq![SessionActionView::Return { clean: false }]
        } else if self.state == SessionState::Stopped {
            seq![]
        } else {
            match event {
                SessionEventView::Opened => if self.state == SessionState::Disconnected {
                    seq![SessionActionView::Subscribe { filter: command_filter() }]
                } else {
                    seq![]
                },
                SessionEventView::ConnAck => seq![
                    SessionActionView::Status(true),
                    SessionActionView::Subscribe { filter: command_filter() },
                ],
                SessionEventView::Publish { topic, payload } => message_actions(topic, payload),
                SessionEventView::Other => seq![],
                SessionEventView::TransportError => seq![
                    SessionActionView::Status(false),
                    SessionActionView::Wait {
                        secs: self.policy.wait_after(self.consecutive_errors, self.escalated),
                    },
                ],
                SessionEventView::Shutdown => seq![
                    SessionActionView::Status(false),
                    SessionActionView::Return { clean: true },
                ],
                SessionEventView::HandOffFailed => seq![SessionActionView::Return { clean: false }],
            }
        }
    }
}

/// One bus session.
pub struct MQTTHandler {
    broker: String,
    port: u16,
    client_id: String,
    state: SessionState,
    consecutive_errors: u32,
    escalated: bool,
    policy: BackoffPolicy,
}

impl View for MQTTHandler {
    type V = SessionView;

    closed spec fn view(&self) -> SessionView {
        SessionView {
            broker: self.broker@,
            port: self.port,
            client_id: self.client_id@,
            state: self.state,
            consecutive_errors: self.consecutive_errors as nat,
            escalated: self.escalated,
            policy: self.policy,
        }
    }
}

impl MQTTHandler {
    /// Holds of every session: it is well formed.
    #[verifier::type_invariant]
    closed spec fn inv(&self) -> bool {
        self@.wf()
    }

    /// A session is always well formed: this says so to a caller that needs it.
    pub fn well_formed(&self)
        ensures
            self@.wf(),
    {
        proof {
            use_type_invariant(self);
        }
    }

    /// A session toward `broker:port` under the identity `client_id`, with
    /// the standard backoff. The broker keeps a session by its identity, so an
    /// empty identity is refused.
    pub fn new(broker: &str, port: u16, client_id: &str) -> (handler: Option<MQTTHandler>)
        ensures
            client_id@.len() == 0 ==> handler is None,
            client_id@.len() > 0 ==> (handler matches Some(h) && h@.wf() && h@ == (SessionView {
                broker: broker@,
                port,
                client_id: client_id@,
                state: SessionState::Disconnected,
                consecutive_errors: 0,
                escalated: false,
                policy: BackoffPolicy { threshold: 3, base_secs: 1, ceiling_secs: 5 },
            })),
    {
        MQTTHandler::with_policy(broker, port, client_id, BackoffPolicy::standard())
    }

    /// A session toward `broker:port` under the identity `client_id`, with
    /// the backoff `policy`. An empty identity and an unusable policy are refused.
    pub fn with_policy(broker: &str, port: u16, client_id: &str, policy: BackoffPolicy) -> (handler: Option<MQTTHandler>)
        ensures
            (client_id@.len() == 0 || !policy.valid()) ==> handler is None,
            (client_id@.len() > 0 && policy.valid()) ==> (handler matches Some(h) && h@.wf() && h@ == (SessionView {
                broker: broker@,
                port,
                client_id: client_id@,
                state: SessionState::Disconnected,
                consecutive_errors: 0,
                escalated: false,
                policy,
            })),
    {
        if client_id.is_empty() || !policy.is_valid() {
            return None;
        }
        Some(
            MQTTHandler {
                broker: broker.to_owned(),
                port,
                client_id: client_id.to_owned(),
                state: SessionState::Disconnected,
                consecutive_errors: 0,
                escalated: false,
                policy,
            },
        )
    }

    /// The settings with which the transport is to be opened.
    pub fn options(&self) -> (options: SessionOptions)
        ensures
            options == (SessionOptions {
                keep_alive_secs: 5,
                clean_session: false,
                connection_timeout_secs: 10,
                max_packet_size: 102400,
                pending_throttle_millis: 100,
                request_capacity: 10,
            }),
    {
        SessionOptions {
            keep_alive_secs: 5,
            clean_session: false,
            connection_timeout_secs: 10,
            max_packet_size: 100 * 1024,
            pending_throttle_millis: 100,
            request_capacity: 10,
        }
    }

    /// The broker's host.
    pub fn broker(&self) -> (broker: &str)
        ensures
            broker@ == self@.broker,
    {
        self.broker.as_str()
    }

    /// The broker's port.
    pub fn port(&self) -> (port: u16)
        ensures
            port == self@.port,
    {
        self.port
    }

    /// The identity under which the session runs.
    pub fn client_id(&self) -> (id: &str)
        ensures
            id@ == self@.client_id,
    {
        self.client_id.as_str()
    }

    /// Where the session stands.
    pub fn state(&self) -> (state: SessionState)
        ensures
            state == self@.state,
    {
        self.state
    }

    /// How many transport errors were counted since the last success or
    /// since the count last reached the threshold.
    pub fn consecutive_errors(&self) -> (count: u32)
        ensures
            count == self@.consecutive_errors,
    {
        self.consecutive_errors
    }

    /// Whether the unbroken run of errors has reached the threshold, so that
    /// every further error of the run waits the ceiling.
    pub fn is_escalated(&self) -> (escalated: bool)
        ensures
            escalated == self@.escalated,
    {
        self.escalated
    }

    /// One turn of the session's loop: takes in `event`, moves the session
    /// on and says what the caller has to do, in order.
    pub fn start(&mut self, event: SessionEvent) -> (actions: Vec<SessionAction>)
        ensures
            old(self)@.wf(),
            final(self)@.wf(),
            final(self)@ == old(self)@.after(event@),
            session_action_views(actions@) == old(self)@.actions_on(event@),
    {
        proof {
            use_type_invariant(&*self);
        }
        let mut actions: Vec<SessionAction> = Vec::new();
        match self.state {
            SessionState::Stopped => {
                match event {
                    SessionEvent::HandOffFailed => {
                        actions.push(SessionAction::Return { clean: false });
                    },
                    _ => {},
                }
                assert(session_action_views(actions@) =~= old(self)@.actions_on(event@));
                return actions;
            },
            _ => {},
        }
        match event {
            SessionEvent::Opened => {
                match self.state {
                    SessionState::Disconnected => {
                        self.state = SessionState::Connecting;
                        actions.push(SessionAction::Subscribe { filter: "app/+".to_owned() });
                    },
                    _ => {},
                }
            },
            SessionEvent::ConnAck => {
                self.state = SessionState::Connected;
                self.consecutive_errors = 0;
                self.escalated = false;
                actions.push(SessionAction::Status(true));
                actions.push(SessionAction::Subscribe { filter: "app/+".to_owned() });
            },
            SessionEvent::Publish { topic, payload } => {
                self.consecutive_errors = 0;
                self.escalated = false;
                match classify_topic(topic.as_str()) {
                    Some(kind) => match decode_payload(kind, payload.as_slice()) {
                        Some(command) => {
                            actions.push(SessionAction::Forward(command));
                        },
                        None => {
                            actions.push(SessionAction::Discard(DiscardReason::Malformed));
                        },
                    },
                    None => {
                        actions.push(SessionAction::Discard(DiscardReason::UnknownTopic));
                    },
                }
            },
            SessionEvent::Other => {},
            SessionEvent::TransportError => {
                match self.state {
                    SessionState::Connected => {
                        self.state = SessionState::Degraded;
                    },
                    _ => {},
                }
                let errors: u32 = self.consecutive_errors + 1;
                if errors >= self.policy.threshold {
                    self.consecutive_errors = 0;
                    self.escalated = true;
                } else {
                    self.consecutive_errors = errors;
                }
                let secs: u64 = if self.escalated {
                    self.policy.ceiling_secs
                } else {
                    self.policy.base_secs
                };
                actions.push(SessionAction::Status(false));
                actions.push(SessionAction::Wait { secs });
            },
            SessionEvent::Shutdown => {
                self.state = SessionState::Stopped;
                actions.push(SessionAction::Status(false));
                actions.push(SessionAction::Return { clean: true });
            },
            SessionEvent::HandOffFailed => {
                self.state = SessionState::Stopped;
                actions.push(SessionAction::Return { clean: false });
            },
        }
        assert(session_action_views(actions@) =~= old(self)@.actions_on(event@));
        actions
    }

    /// The message that publishes `status` for the scene `app_name`. It is to
    /// be sent at least once and not retained.
    pub fn publish_status(&self, app_name: &str, status: &str) -> (report: StatusReport)
        ensures
            report.topic@ == status_topic(app_name@),
            report.payload@ == status@,
    {
        StatusReport { topic: join("app/status/", app_name), payload: status.to_owned() }
    }
}

impl SessionView {
    /// The session after `count` further acknowledged connections, each of
    /// which has the subscription issued again.
    pub open spec fn after_reconnects(self, count: nat) -> SessionView
        decreases count,
    {
        if count == 0 {
            self
        } else {
            self.after(SessionEventView::ConnAck).after_reconnects((count - 1) as nat)
        }
    }
}

/// The commands that `actions` hand to the orchestrator, in order.
pub open spec fn forwarded(actions: Seq<SessionActionView>) -> Seq<CommandView> {
    actions.filter(|a: SessionActionView| a is Forward).map_values(|a: SessionActionView| a->Forward_0)
}

/// Subscribing again does not multiply deliveries: however often a live
/// session has reconnected, one message is answered by one action, which
/// forwards the message's command where the message is a command and drops
/// the message where it is not. So one message yields one forwarded command
/// at most, and what is forwarded does not depend on the session's history.
pub proof fn lemma_one_message_one_command(session: SessionView, reconnects: nat, topic: Seq<char>, payload: Seq<u8>)
    requires
        session.state != SessionState::Stopped,
    ensures
        session.after_reconnects(reconnects).state != SessionState::Stopped,
        session.after_reconnects(reconnects).actions_on(SessionEventView::Publish { topic, payload })
            == message_actions(topic, payload),
        message_actions(topic, payload).len() == 1,
        forwarded(message_actions(topic, payload)) == (match topic_kind(topic) {
            Some(kind) => match decoded_payload(kind, payload) {
                Some(command) => seq![command],
                None => seq![],
            },
            None => seq![],
        }),
    decreases reconnects,
{
    if reconnects > 0 {
        lemma_one_message_one_command(
            session.after(SessionEventView::ConnAck),
            (reconnects - 1) as nat,
            topic,
            payload,
        );
    }
    let actions = message_actions(topic, payload);
    let keep = |a: SessionActionView| a is Forward;
    reveal(Seq::filter);
    assert(actions =~= Seq::<SessionActionView>::empty().push(actions[0]));
    assert(actions.drop_last() =~= Seq::<SessionActionView>::empty());
    assert(actions.drop_last().filter(keep) =~= Seq::<SessionActionView>::empty());
    if keep(actions[0]) {
        assert(actions.filter(keep) =~= seq![actions[0]]);
        assert(forwarded(actions) =~= seq![actions[0]->Forward_0]);
    } else {
        assert(actions.filter(keep) =~= Seq::<SessionActionView>::empty());
        assert(forwarded(actions) =~= Seq::<CommandView>::empty());
    }
}

/// Every acknowledged connection is answered alike: connectivity is reported
/// and the one subscription is issued, whatever came before.
pub proof fn lemma_subscription_is_reissued_alike(session: SessionView, reconnects: nat)
    requires
        session.state != SessionState::Stopped,
    ensures
        session.after_reconnects(reconnects).actions_on(SessionEventView::ConnAck) == seq![
            SessionActionView::Status(true),
            SessionActionView::Subscribe { filter: command_filter() },
        ],
    decreases reconnects,
{
    if reconnects > 0 {
        lemma_subscription_is_reissued_alike(session.after(SessionEventView::ConnAck), (reconnects - 1) as nat);
    }
}

/// What the orchestrator is told is where the session stands: whenever a
/// live session reports connectivity, it reports the bus as reachable exactly
/// if the session stands connected afterwards.
pub proof fn lemma_status_tells_the_state(session: SessionView, event: SessionEventView, i: int)
    requires
        session.state != SessionState::Stopped,
        0 <= i < session.actions_on(event).len(),
        session.actions_on(event)[i] is Status,
    ensures
        session.actions_on(event)[i]->Status_0 == (session.after(event).state == SessionState::Connected),
{
    match event {
        SessionEventView::Publish { topic, payload } => {
            assert(message_actions(topic, payload).len() == 1);
        },
        _ => {},
    }
}

/// The wait that the session asks for on a transport error.
pub open spec fn wait_on_error(session: SessionView) -> u64 {
    session.policy.wait_after(session.consecutive_errors, session.escalated)
}

impl SessionView {
    /// The session after `count` transport errors in a row, with no success
    /// between them.
    pub open spec fn after_errors(self, count: nat) -> SessionView
        decreases count,
    {
        if count == 0 {
            self
        } else {
            self.after(SessionEventView::TransportError).after_errors((count - 1) as nat)
        }
    }
}

/// Backoff never shortens between consecutive errors: on a transport error a
/// live session reports the bus as unreachable and asks for a wait, and the
/// wait after the next error in a row is at least as long and at most the
/// ceiling.
pub proof fn lemma_backoff_does_not_shorten(session: SessionView)
    requires
        session.wf(),
        session.state != SessionState::Stopped,
    ensures
        session.actions_on(SessionEventView::TransportError) == seq![
            SessionActionView::Status(false),
            SessionActionView::Wait { secs: wait_on_error(session) },
        ],
        session.after(SessionEventView::TransportError).wf(),
        session.after(SessionEventView::TransportError).state != SessionState::Stopped,
        wait_on_error(session) <= wait_on_error(session.after(SessionEventView::TransportError)),
        wait_on_error(session.after(SessionEventView::TransportError)) <= session.policy.ceiling_secs,
{
}

/// Over a whole run of errors the waits never shorten: of two errors of an
/// unbroken run, the later one waits at least as long as the earlier one, and
/// none waits longer than the ceiling.
pub proof fn lemma_waits_rise_over_a_run(session: SessionView, earlier: nat, later: nat)
    requires
        session.wf(),
        session.state != SessionState::Stopped,
        earlier <= later,
    ensures
        session.after_errors(earlier).wf(),
        session.after_errors(earlier).state != SessionState::Stopped,
        session.after_errors(earlier).policy == session.policy,
        wait_on_error(session.after_errors(earlier)) <= wait_on_error(session.after_errors(later)),
        wait_on_error(session.after_errors(later)) <= session.policy.ceiling_secs,
    decreases later,
{
    if earlier > 0 {
        lemma_backoff_does_not_shorten(session);
        lemma_waits_rise_over_a_run(
            session.after(SessionEventView::TransportError),
            (earlier - 1) as nat,
            (later - 1) as nat,
        );
    } else if later > 0 {
        lemma_backoff_does_not_shorten(session);
        lemma_waits_rise_over_a_run(session.after(SessionEventView::TransportError), 0, (later - 1) as nat);
    }
}

/// Reaching the threshold lengthens the wait and starts the count over. The
/// error that brings the count to the threshold is answered by the ceiling,
/// which is strictly longer than the base, and leaves the count at zero;
/// from then on the run stays at the ceiling. Before that an error waits the
/// base. A success, a message or an acknowledged connection, ends the run:
/// the count is zero again and the next run starts at the base.
pub proof fn lemma_threshold_lengthens_and_resets(session: SessionView)
    requires
        session.wf(),
        session.state != SessionState::Stopped,
    ensures
        wait_on_error(session) <= session.policy.ceiling_secs,
        session.consecutive_errors + 1 >= session.policy.threshold ==> {
            &&& wait_on_error(session) == session.policy.ceiling_secs
            &&& session.policy.base_secs < wait_on_error(session)
            &&& session.after(SessionEventView::TransportError).consecutive_errors == 0
            &&& session.after(SessionEventView::TransportError).escalated
        },
        session.escalated ==> {
            &&& wait_on_error(session) == session.policy.ceiling_secs
            &&& session.after(SessionEventView::TransportError).escalated
        },
        session.consecutive_errors + 1 < session.policy.threshold ==> {
            &&& !session.escalated ==> wait_on_error(session) == session.policy.base_secs
            &&& session.after(SessionEventView::TransportError).consecutive_errors == session.consecutive_errors
                + 1
            &&& session.after(SessionEventView::TransportError).escalated == session.escalated
        },
        forall|topic: Seq<char>, payload: Seq<u8>|
            {
                let next = #[trigger] session.after(SessionEventView::Publish { topic, payload });
                next.consecutive_errors == 0 && !next.escalated
            },
        session.after(SessionEventView::ConnAck).consecutive_errors == 0,
        !session.after(SessionEventView::ConnAck).escalated,
        session.policy.threshold > 1 ==> wait_on_error(session.after(SessionEventView::ConnAck))
            == session.policy.base_secs,
{
}

} // verus!
