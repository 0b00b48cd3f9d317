use crate::fan::FanCommand;
use crate::protocol::ExternalCommand;
use vstd::prelude::*;

verus! {

/// How a publish to the broker ended.
#[derive(Clone, Copy, Debug, PartialEq, Eq, Structural)]
pub enum PublishOutcome {
    /// The broker took the message.
    Sent,
    /// The broker took the message but nobody is subscribed to its topic.
    NoMatchingSubscribers,
    /// Any other error.
    Failed,
}

/// Whether a publish counts as done: a message that nobody listens to was
/// still delivered to the broker.
pub fn publish_succeeded(o: PublishOutcome) -> (ok: bool)
    ensures
        ok == (o != PublishOutcome::Failed),
{
    match o {
        PublishOutcome::Sent => true,
        PublishOutcome::NoMatchingSubscribers => true,
        PublishOutcome::Failed => false,
    }
}

/// What the fan unit publishes.
#[derive(Clone, Debug, PartialEq, Eq)]
pub enum Outgoing {
    /// `true` on the online topic.
    Online,
    /// `false` on the online topic: the last will the broker publishes when
    /// the unit drops off.
    Offline,
    /// The firmware version on the version topic.
    Version,
    /// The label of a fan command on the fan topic.
    Fan(FanCommand),
    /// An already serialised onboard temperature on the temperature topic.
    Temperature(Vec<u8>),
}

/// Where a session with the broker stands.
#[derive(Clone, Copy, Debug, PartialEq, Eq, Structural)]
pub enum SessionPhase {
    /// Not started.
    Idle,
    /// Opening the TCP connection to the broker.
    ConnectingSocket,
    /// Logging in to the broker.
    ConnectingBroker,
    /// Subscribing to the command topic.
    Subscribing,
    /// Announcing that the unit is online.
    AnnouncingOnline,
    /// Announcing the firmware version.
    AnnouncingVersion,
    /// Serving: pings, readings, fan changes and commands.
    Running,
    /// Over; a new session has to be started.
    Ended,
}

/// What happened, as the session's driver reports it.
#[derive(Clone, Debug, PartialEq, Eq)]
pub enum SessionEvent {
    /// The session is to begin.
    Start,
    /// The TCP connection was opened (`true`) or not.
    SocketConnected(bool),
    /// The broker accepted the login (`true`) or not.
    BrokerConnected(bool),
    /// The subscription was made (`true`) or not.
    Subscribed(bool),
    /// The last publish ended so.
    Published(PublishOutcome),
    /// It is time for a keep-alive ping.
    PingDue,
    /// The ping went through (`true`) or not.
    PingSent(bool),
    /// A new temperature reading, serialised, or `None` when it could not be
    /// serialised.
    Temperature(Option<Vec<u8>>),
    /// The fan driver was told a new command.
    FanChanged(FanCommand),
    /// A local channel lost messages.
    Lagged,
    /// A message came in on `topic`; `command` is its payload read as a
    /// command, if it is one.
    Received { topic: String, command: Option<ExternalCommand> },
    /// Nothing came in.
    NothingReceived,
    /// Receiving failed.
    ReceiveFailed,
}

/// What the session's driver is to do next.
#[derive(Clone, Debug, PartialEq, Eq)]
pub enum SessionAction {
    /// Open the TCP connection, giving up after `timeout_secs` seconds.
    ConnectSocket { timeout_secs: u64 },
    /// Log in, leaving `will` with the broker, retained if `will_retain`.
    ConnectBroker { will: Outgoing, will_retain: bool },
    /// Subscribe to the command topic.
    Subscribe,
    /// Publish `what`, retained if `retain`.
    Publish { what: Outgoing, retain: bool },
    /// Send a keep-alive ping.
    SendPing,
    /// Hand a command to the fan unit's run logic.
    Forward(ExternalCommand),
    /// Wait before polling again.
    Wait { millis: u64 },
    /// Nothing; wait for the next event.
    Idle,
    /// Close the session.
    End,
}

/// Seconds to wait for the TCP connection to the broker.
pub const SOCKET_TIMEOUT_SECS: u64 = 10;

/// Milliseconds to wait when nothing came in before polling again.
pub const RECEIVE_POLL_MILLIS: u64 = 10;

/// Milliseconds between two checks whether DHCP has configured the link.
pub const DHCP_POLL_MILLIS: u64 = 100;

/// Milliseconds to wait after a session ended before starting the next one.
pub const RECONNECT_MILLIS: u64 = 500;

/// The step of a session: the next phase and the action to take, from the
/// current phase and what happened. During start-up each phase succeeds into
/// the next or fails into `Ended`; while running, a failure ends the session,
/// a command on the command topic that parses is forwarded, and other
/// messages are ignored. Events that do not belong to a phase change nothing.
pub open spec fn session_next(
    phase: SessionPhase,
    event: SessionEvent,
    command_topic: Seq<char>,
) -> (SessionPhase, SessionAction) {
    let ignore = (phase, SessionAction::Idle);
    let end = (SessionPhase::Ended, SessionAction::End);
    match phase {
        SessionPhase::Idle => match event {
            SessionEvent::Start => (
                SessionPhase::ConnectingSocket,
                SessionAction::ConnectSocket { timeout_secs: SOCKET_TIMEOUT_SECS },
            ),
            _ => ignore,
        },
        SessionPhase::ConnectingSocket => match event {
            SessionEvent::SocketConnected(ok) => if ok {
                (
                    SessionPhase::ConnectingBroker,
                    SessionAction::ConnectBroker { will: Outgoing::Offline, will_retain: true },
                )
            } else {
                end
            },
            _ => ignore,
        },
        SessionPhase::ConnectingBroker => match event {
            SessionEvent::BrokerConnected(ok) => if ok {
                (SessionPhase::Subscribing, SessionAction::Subscribe)
            } else {
                end
            },
            _ => ignore,
        },
        SessionPhase::Subscribing => match event {
            SessionEvent::Subscribed(ok) => if ok {
                (
                    SessionPhase::AnnouncingOnline,
                    SessionAction::Publish { what: Outgoing::Online, retain: true },
                )
            } else {
                end
            },
            _ => ignore,
        },
        SessionPhase::AnnouncingOnline => match event {
            SessionEvent::Published(o) => if o != PublishOutcome::Failed {
                (
                    SessionPhase::AnnouncingVersion,
                    SessionAction::Publish { what: Outgoing::Version, retain: true },
                )
            } else {
                end
            },
            _ => ignore,
        },
        SessionPhase::AnnouncingVersion => match event {
            SessionEvent::Published(o) => if o != PublishOutcome::Failed {
                (SessionPhase::Running, SessionAction::Idle)
            } else {
                end
            },
            _ => ignore,
        },
        SessionPhase::Running => match event {
            SessionEvent::PingDue => (SessionPhase::Running, SessionAction::SendPing),
            SessionEvent::PingSent(ok) => if ok {
                ignore
            } else {
                end
            },
            SessionEvent::Published(o) => if o != PublishOutcome::Failed {
                ignore
            } else {
                end
            },
            SessionEvent::Temperature(payload) => match payload {
                Some(bytes) => (
                    SessionPhase::Running,
                    SessionAction::Publish { what: Outgoing::Temperature(bytes), retain: false },
                ),
                None => ignore,
            },
            SessionEvent::FanChanged(cmd) => (
                SessionPhase::Running,
                SessionAction::Publish { what: Outgoing::Fan(cmd), retain: false },
            ),
            SessionEvent::Received { topic, command } => if topic@ == command_topic {
                match command {
                    Some(c) => (SessionPhase::Running, SessionAction::Forward(c)),
                    None => ignore,
                }
            } else {
                ignore
            },
            SessionEvent::NothingReceived => (
                SessionPhase::Running,
                SessionAction::Wait { millis: RECEIVE_POLL_MILLIS },
            ),
            SessionEvent::ReceiveFailed => end,
            _ => ignore,
        },
        SessionPhase::Ended => (SessionPhase::Ended, SessionAction::End),
    }
}

/// Takes one step of a session with the broker, whose command topic is
/// `command_topic`.
pub fn session_step(phase: SessionPhase, event: SessionEvent, command_topic: &String) -> (r: (
    SessionPhase,
    SessionAction,
))
    ensures
        r == session_next(phase, event, command_topic@),
{
    match phase {
        SessionPhase::Idle => match event {
            SessionEvent::Start => (
                SessionPhase::ConnectingSocket,
                SessionAction::ConnectSocket { timeout_secs: SOCKET_TIMEOUT_SECS },
            ),
            _ => (phase, SessionAction::Idle),
        },
        SessionPhase::ConnectingSocket => match event {
            SessionEvent::SocketConnected(ok) => if ok {
                (
                    SessionPhase::ConnectingBroker,
                    SessionAction::ConnectBroker { will: Outgoing::Offline, will_retain: true },
                )
            } else {
                (SessionPhase::Ended, SessionAction::End)
            },
            _ => (phase, SessionAction::Idle),
        },
        SessionPhase::ConnectingBroker => match event {
            SessionEvent::BrokerConnected(ok) => if ok {
                (SessionPhase::Subscribing, SessionAction::Subscribe)
            } else {
                (SessionPhase::Ended, SessionAction::End)
            },
            _ => (phase, SessionAction::Idle),
        },
        SessionPhase::Subscribing => match event {
            SessionEvent::Subscribed(ok) => if ok {
                (
                    SessionPhase::AnnouncingOnline,
                    SessionAction::Publish { what: Outgoing::Online, retain: true },
                )
            } else {
                (SessionPhase::Ended, SessionAction::End)
            },
            _ => (phase, SessionAction::Idle),
        },
        SessionPhase::AnnouncingOnline => match event {
            SessionEvent::Published(o) => if publish_succeeded(o) {
                (
                    SessionPhase::AnnouncingVersion,
                    SessionAction::Publish { what: Outgoing::Version, retain: true },
                )
            } else {
                (SessionPhase::Ended, SessionAction::End)
            },
            _ => (phase, SessionAction::Idle),
        },
        SessionPhase::AnnouncingVersion => match event {
            SessionEvent::Published(o) => if publish_succeeded(o) {
                (SessionPhase::Running, SessionAction::Idle)
            } else {
                (SessionPhase::Ended, SessionAction::End)
            },
            _ => (phase, SessionAction::Idle),
        },
        SessionPhase::Running => match event {
            SessionEvent::PingDue => (SessionPhase::Running, SessionAction::SendPing),
            SessionEvent::PingSent(ok) => if ok {
                (phase, SessionAction::Idle)
            } else {
                (SessionPhase::Ended, SessionAction::End)
            },
            SessionEvent::Published(o) => if publish_succeeded(o) {
                (phase, SessionAction::Idle)
            } else {
                (SessionPhase::Ended, SessionAction::End)
            },
            SessionEvent::Temperature(payload) => match payload {
                Some(bytes) => (
                    SessionPhase::Running,
                    SessionAction::Publish { what: Outgoing::Temperature(bytes), retain: false },
                ),
                None => (phase, SessionAction::Idle),
            },
            SessionEvent::FanChanged(cmd) => (
                SessionPhase::Running,
                SessionAction::Publish { what: Outgoing::Fan(cmd), retain: false },
            ),
            SessionEvent::Received { topic, command } => if topic == *command_topic {
                match command {
                    Some(c) => (SessionPhase::Running, SessionAction::Forward(c)),
                    None => (phase, SessionAction::Idle),
                }
            } else {
                (phase, SessionAction::Idle)
            },
            SessionEvent::NothingReceived => (
                SessionPhase::Running,
                SessionAction::Wait { millis: RECEIVE_POLL_MILLIS },
            ),
            SessionEvent::ReceiveFailed => (SessionPhase::Ended, SessionAction::End),
            _ => (phase, SessionAction::Idle),
        },
        SessionPhase::Ended => (SessionPhase::Ended, SessionAction::End),
    }
}

/// Where the fan unit's network link stands.
#[derive(Clone, Copy, Debug, PartialEq, Eq, Structural)]
pub enum LinkPhase {
    /// Joining the WiFi network.
    Joining,
    /// Waiting for DHCP to configure the link.
    AwaitingDhcp,
    /// Up: running sessions with the broker, one after another.
    Connected,
}

/// What the link's driver reports.
#[derive(Clone, Copy, Debug, PartialEq, Eq, Structural)]
pub enum LinkEvent {
    /// Joining the network worked (`true`) or not.
    Joined(bool),
    /// DHCP has configured the link (`true`) or not yet.
    DhcpChecked(bool),
    /// A session with the broker ended.
    SessionEnded,
}

/// The step of the link: the next phase, and how many milliseconds to wait
/// before the next attempt. Joining is retried at once until it works; DHCP
/// is checked every `DHCP_POLL_MILLIS`; after each session the next one starts
/// `RECONNECT_MILLIS` later. Events that do not belong to a phase change
/// nothing.
pub open spec fn link_next(phase: LinkPhase, event: LinkEvent) -> (LinkPhase, u64) {
    match (phase, event) {
        (LinkPhase::Joining, LinkEvent::Joined(ok)) => if ok {
            (LinkPhase::AwaitingDhcp, 0)
        } else {
            (LinkPhase::Joining, 0)
        },
        (LinkPhase::AwaitingDhcp, LinkEvent::DhcpChecked(up)) => if up {
            (LinkPhase::Connected, 0)
        } else {
            (LinkPhase::AwaitingDhcp, DHCP_POLL_MILLIS)
        },
        (LinkPhase::Connected, LinkEvent::SessionEnded) => (LinkPhase::Connected, RECONNECT_MILLIS),
        _ => (phase, 0),
    }
}

/// Takes one step of the link.
pub fn link_step(phase: LinkPhase, event: LinkEvent) -> (r: (LinkPhase, u64))
    ensures
        r == link_next(phase, event),
{
    match (phase, event) {
        (LinkPhase::Joining, LinkEvent::Joined(ok)) => if ok {
            (LinkPhase::AwaitingDhcp, 0)
        } else {
            (LinkPhase::Joining, 0)
        },
        (LinkPhase::AwaitingDhcp, LinkEvent::DhcpChecked(up)) => if up {
            (LinkPhase::Connected, 0)
        } else {
            (LinkPhase::AwaitingDhcp, DHCP_POLL_MILLIS)
        },
        (LinkPhase::Connected, LinkEvent::SessionEnded) => (LinkPhase::Connected, RECONNECT_MILLIS),
        _ => (phase, 0),
    }
}

/// The phase that follows each start-up phase when its step succeeds.
pub open spec fn startup_successor(phase: SessionPhase) -> Option<SessionPhase> {
    match phase {
        SessionPhase::Idle => Some(SessionPhase::ConnectingSocket),
        SessionPhase::ConnectingSocket => Some(SessionPhase::ConnectingBroker),
        SessionPhase::ConnectingBroker => Some(SessionPhase::Subscribing),
        SessionPhase::Subscribing => Some(SessionPhase::AnnouncingOnline),
        SessionPhase::AnnouncingOnline => Some(SessionPhase::AnnouncingVersion),
        SessionPhase::AnnouncingVersion => Some(SessionPhase::Running),
        _ => None,
    }
}

/// The action taken on entering each start-up phase.
pub open spec fn startup_action(phase: SessionPhase) -> SessionAction {
    match phase {
        SessionPhase::ConnectingSocket => SessionAction::ConnectSocket {
            timeout_secs: SOCKET_TIMEOUT_SECS,
        },
        SessionPhase::ConnectingBroker => SessionAction::ConnectBroker {
            will: Outgoing::Offline,
            will_retain: true,
        },
        SessionPhase::Subscribing => SessionAction::Subscribe,
        SessionPhase::AnnouncingOnline => SessionAction::Publish {
            what: Outgoing::Online,
            retain: true,
        },
        SessionPhase::AnnouncingVersion => SessionAction::Publish {
            what: Outgoing::Version,
            retain: true,
        },
        _ => SessionAction::Idle,
    }
}

/// The event reports a failure.
pub open spec fn is_failure(event: SessionEvent) -> bool {
    match event {
        SessionEvent::SocketConnected(ok) => !ok,
        SessionEvent::BrokerConnected(ok) => !ok,
        SessionEvent::Subscribed(ok) => !ok,
        SessionEvent::Published(o) => o == PublishOutcome::Failed,
        SessionEvent::PingSent(ok) => !ok,
        SessionEvent::ReceiveFailed => true,
        _ => false,
    }
}

/// The phase waits for events of this kind.
pub open spec fn awaits(phase: SessionPhase, event: SessionEvent) -> bool {
    match (phase, event) {
        (SessionPhase::Idle, SessionEvent::Start) => true,
        (SessionPhase::ConnectingSocket, SessionEvent::SocketConnected(_)) => true,
        (SessionPhase::ConnectingBroker, SessionEvent::BrokerConnected(_)) => true,
        (SessionPhase::Subscribing, SessionEvent::Subscribed(_)) => true,
        (SessionPhase::AnnouncingOnline, SessionEvent::Published(_)) => true,
        (SessionPhase::AnnouncingVersion, SessionEvent::Published(_)) => true,
        (SessionPhase::Running, SessionEvent::Start) => false,
        (SessionPhase::Running, SessionEvent::SocketConnected(_)) => false,
        (SessionPhase::Running, SessionEvent::BrokerConnected(_)) => false,
        (SessionPhase::Running, SessionEvent::Subscribed(_)) => false,
        (SessionPhase::Running, _) => true,
        _ => false,
    }
}

/// A session starts up in order: connect the socket, log in leaving the
/// retained `Offline` will, subscribe, announce online (retained), announce
/// the version (retained), and only then run. A start-up phase moves only to
/// its successor, taking that phase's action, or to `Ended`.
pub proof fn session_starts_up_in_order(
    phase: SessionPhase,
    event: SessionEvent,
    command_topic: Seq<char>,
)
    requires
        startup_successor(phase) is Some,
    ensures
        ({
            let (next, action) = session_next(phase, event, command_topic);
            ||| next == phase && action == SessionAction::Idle
            ||| next == SessionPhase::Ended && action == SessionAction::End
            ||| Some(next) == startup_successor(phase) && action == startup_action(next)
        }),
        session_next(phase, event, command_topic).0 == SessionPhase::Running ==> (phase
            == SessionPhase::AnnouncingVersion && (event matches SessionEvent::Published(o) && o
            != PublishOutcome::Failed)),
{
}

/// Commands are forwarded only while running, and only from a message on the
/// command topic whose payload is a command: exactly that command is handed
/// on; everything else that comes in is ignored.
pub proof fn only_commands_on_the_command_topic_are_forwarded(
    phase: SessionPhase,
    event: SessionEvent,
    command_topic: Seq<char>,
)
    ensures
        session_next(phase, event, command_topic).1 matches SessionAction::Forward(c) ==> (phase
            == SessionPhase::Running && (event matches SessionEvent::Received { topic, command }
            && topic@ == command_topic && command == Some(c))),
        event matches SessionEvent::Received { topic, command } ==> (phase == SessionPhase::Running
            ==> session_next(phase, event, command_topic) == if topic@ == command_topic
            && command is Some {
            (SessionPhase::Running, SessionAction::Forward(command.unwrap()))
        } else {
            (SessionPhase::Running, SessionAction::Idle)
        }),
{
}

/// Any failure the session waits for ends it; a session ends only on such a
/// failure; and once ended it stays ended.
pub proof fn failures_end_the_session(
    phase: SessionPhase,
    event: SessionEvent,
    command_topic: Seq<char>,
)
    ensures
        is_failure(event) && awaits(phase, event) ==> session_next(phase, event, command_topic) == (
        SessionPhase::Ended,
        SessionAction::End,
        ),
        session_next(phase, event, command_topic).0 == SessionPhase::Ended && phase
            != SessionPhase::Ended ==> is_failure(event) && awaits(phase, event),
        phase == SessionPhase::Ended ==> session_next(phase, event, command_topic) == (
        SessionPhase::Ended,
        SessionAction::End,
        ),
{
}

/// While running, each fan change is published as its label, not retained;
/// and the only retained messages a session publishes are the two start-up
/// announcements.
pub proof fn fan_changes_are_published_unretained(
    phase: SessionPhase,
    event: SessionEvent,
    command_topic: Seq<char>,
)
    ensures
        event matches SessionEvent::FanChanged(cmd) ==> (phase == SessionPhase::Running
            ==> session_next(phase, event, command_topic) == (
        SessionPhase::Running,
        SessionAction::Publish { what: Outgoing::Fan(cmd), retain: false },
        )),
        session_next(phase, event, command_topic).1 matches SessionAction::Publish { what, retain }
            ==> (retain ==> (what == Outgoing::Online || what == Outgoing::Version)),
{
}

/// Once the link is up it stays up: sessions follow one another
/// `RECONNECT_MILLIS` apart, and the network is never rejoined. Before that,
/// joining is retried without delay and DHCP is polled every
/// `DHCP_POLL_MILLIS`.
pub proof fn link_stays_up_and_retries(phase: LinkPhase, event: LinkEvent)
    ensures
        phase == LinkPhase::Connected ==> link_next(phase, event).0 == LinkPhase::Connected,
        phase == LinkPhase::Connected && event == LinkEvent::SessionEnded ==> link_next(
            phase,
            event,
        ).1 == RECONNECT_MILLIS,
        phase == LinkPhase::Joining && event == LinkEvent::Joined(false) ==> link_next(phase, event)
            == (LinkPhase::Joining, 0u64),
        phase == LinkPhase::AwaitingDhcp && event == LinkEvent::DhcpChecked(false) ==> link_next(
            phase,
            event,
        ) == (LinkPhase::AwaitingDhcp, DHCP_POLL_MILLIS),
{
}

/// Every publish that did not fail counts as done, whether or not anybody
/// subscribes: an accepted online announcement moves on to announcing the
/// version, an accepted version announcement starts the running session, and
/// an accepted publish while running keeps it running.
pub proof fn accepted_publishes_advance(o: PublishOutcome, command_topic: Seq<char>)
    requires
        o != PublishOutcome::Failed,
    ensures
        session_next(SessionPhase::AnnouncingOnline, SessionEvent::Published(o), command_topic) == (
        SessionPhase::AnnouncingVersion,
        SessionAction::Publish { what: Outgoing::Version, retain: true },
        ),
        session_next(SessionPhase::AnnouncingVersion, SessionEvent::Published(o), command_topic)
            == (SessionPhase::Running, SessionAction::Idle),
        session_next(SessionPhase::Running, SessionEvent::Published(o), command_topic) == (
        SessionPhase::Running,
        SessionAction::Idle,
        ),
{
}

} // verus!
