use ms_air_filter::fan::FanCommand;
use ms_air_filter::protocol::{ExternalCommand, ExternalFanCommand, FanSpeed};
use ms_air_filter::session::{
    link_step, publish_succeeded, session_step, LinkEvent, LinkPhase, Outgoing, PublishOutcome,
    SessionAction, SessionEvent, SessionPhase,
};

fn topic() -> String {
    "fan/command".to_string()
}

#[test]
fn no_matching_subscribers_is_a_successful_publish() {
    assert!(publish_succeeded(PublishOutcome::Sent));
    assert!(publish_succeeded(PublishOutcome::NoMatchingSubscribers));
    assert!(!publish_succeeded(PublishOutcome::Failed));
}

#[test]
fn session_starts_up_in_order() {
    let t = topic();
    let steps = [
        (SessionEvent::Start, SessionPhase::ConnectingSocket, SessionAction::ConnectSocket { timeout_secs: 10 }),
        (
            SessionEvent::SocketConnected(true),
            SessionPhase::ConnectingBroker,
            SessionAction::ConnectBroker { will: Outgoing::Offline, will_retain: true },
        ),
        (SessionEvent::BrokerConnected(true), SessionPhase::Subscribing, SessionAction::Subscribe),
        (
            SessionEvent::Subscribed(true),
            SessionPhase::AnnouncingOnline,
            SessionAction::Publish { what: Outgoing::Online, retain: true },
        ),
        (
            SessionEvent::Published(PublishOutcome::NoMatchingSubscribers),
            SessionPhase::AnnouncingVersion,
            SessionAction::Publish { what: Outgoing::Version, retain: true },
        ),
        (SessionEvent::Published(PublishOutcome::Sent), SessionPhase::Running, SessionAction::Idle),
    ];
    let mut phase = SessionPhase::Idle;
    for (event, next, action) in steps {
        let (p, a) = session_step(phase, event, &t);
        assert_eq!(p, next);
        assert_eq!(a, action);
        phase = p;
    }
}

#[test]
fn session_failures_end_it() {
    let t = topic();
    assert_eq!(
        session_step(SessionPhase::ConnectingSocket, SessionEvent::SocketConnected(false), &t),
        (SessionPhase::Ended, SessionAction::End)
    );
    assert_eq!(
        session_step(SessionPhase::AnnouncingOnline, SessionEvent::Published(PublishOutcome::Failed), &t),
        (SessionPhase::Ended, SessionAction::End)
    );
    assert_eq!(
        session_step(SessionPhase::Running, SessionEvent::PingSent(false), &t),
        (SessionPhase::Ended, SessionAction::End)
    );
    assert_eq!(
        session_step(SessionPhase::Running, SessionEvent::ReceiveFailed, &t),
        (SessionPhase::Ended, SessionAction::End)
    );
    assert_eq!(
        session_step(SessionPhase::Ended, SessionEvent::PingDue, &t),
        (SessionPhase::Ended, SessionAction::End)
    );
    // An event that does not belong to the phase changes nothing.
    assert_eq!(
        session_step(SessionPhase::Subscribing, SessionEvent::PingDue, &t),
        (SessionPhase::Subscribing, SessionAction::Idle)
    );
}

#[test]
fn session_routes_commands_and_publishes_changes() {
    let t = topic();
    let cmd = ExternalCommand { fan: Some(ExternalFanCommand::Stop), speed: None };
    assert_eq!(
        session_step(
            SessionPhase::Running,
            SessionEvent::Received { topic: "fan/command".into(), command: Some(cmd) },
            &t
        ),
        (SessionPhase::Running, SessionAction::Forward(cmd))
    );
    assert_eq!(
        session_step(
            SessionPhase::Running,
            SessionEvent::Received { topic: "other".into(), command: Some(cmd) },
            &t
        ),
        (SessionPhase::Running, SessionAction::Idle)
    );
    assert_eq!(
        session_step(
            SessionPhase::Running,
            SessionEvent::Received { topic: "fan/command".into(), command: None },
            &t
        ),
        (SessionPhase::Running, SessionAction::Idle)
    );
    assert_eq!(
        session_step(SessionPhase::Running, SessionEvent::FanChanged(FanCommand::Run(FanSpeed::High)), &t),
        (
            SessionPhase::Running,
            SessionAction::Publish { what: Outgoing::Fan(FanCommand::Run(FanSpeed::High)), retain: false }
        )
    );
    assert_eq!(
        session_step(SessionPhase::Running, SessionEvent::Temperature(Some(b"21.5".to_vec())), &t),
        (
            SessionPhase::Running,
            SessionAction::Publish { what: Outgoing::Temperature(b"21.5".to_vec()), retain: false }
        )
    );
    assert_eq!(
        session_step(SessionPhase::Running, SessionEvent::Temperature(None), &t),
        (SessionPhase::Running, SessionAction::Idle)
    );
    assert_eq!(
        session_step(SessionPhase::Running, SessionEvent::NothingReceived, &t),
        (SessionPhase::Running, SessionAction::Wait { millis: 10 })
    );
    assert_eq!(
        session_step(SessionPhase::Running, SessionEvent::PingDue, &t),
        (SessionPhase::Running, SessionAction::SendPing)
    );
}

#[test]
fn link_retries_and_reconnects() {
    assert_eq!(link_step(LinkPhase::Joining, LinkEvent::Joined(false)), (LinkPhase::Joining, 0));
    assert_eq!(link_step(LinkPhase::Joining, LinkEvent::Joined(true)), (LinkPhase::AwaitingDhcp, 0));
    assert_eq!(
        link_step(LinkPhase::AwaitingDhcp, LinkEvent::DhcpChecked(false)),
        (LinkPhase::AwaitingDhcp, 100)
    );
    assert_eq!(
        link_step(LinkPhase::AwaitingDhcp, LinkEvent::DhcpChecked(true)),
        (LinkPhase::Connected, 0)
    );
    assert_eq!(link_step(LinkPhase::Connected, LinkEvent::SessionEnded), (LinkPhase::Connected, 500));
}
