use rovlink::config::Config;
use rovlink::queue::OutboundQueue;
use rovlink::session::{SessionTiming, TerminationReason};
use rovlink::status::ConnectionState;
use rovlink::supervisor::{RetryEvent, Supervisor};
use rovlink::axes::CommandVector;
use rovlink::codec::decode;
use rovlink::messages::TypedMessage;

fn base_config() -> Config {
    Config::default()
}

#[test]
fn endpoint_change_restarts_the_session() {
    let mut sup = Supervisor::new(base_config(), SessionTiming::default());
    let (mut session, _) = sup.begin_session(1_000);

    let mut moved = base_config();
    moved.ip_address = String::from("10.0.0.99");
    let restart = sup.apply_config(&mut session, moved);
    assert!(restart);
    assert!(!session.connected);
    assert_eq!(session.termination(), Some(TerminationReason::EndpointChanged));
    assert_eq!(sup.config.ip_address, "10.0.0.99");
}

#[test]
fn port_change_restarts_the_session() {
    let mut sup = Supervisor::new(base_config(), SessionTiming::default());
    let (mut session, _) = sup.begin_session(1_000);
    let mut moved = base_config();
    moved.web_socket_port = 9001;
    assert!(sup.apply_config(&mut session, moved));
    assert_eq!(session.termination(), Some(TerminationReason::EndpointChanged));
}

#[test]
fn unrelated_config_change_keeps_the_session() {
    let mut sup = Supervisor::new(base_config(), SessionTiming::default());
    let (mut session, _) = sup.begin_session(1_000);

    let mut tweaked = base_config();
    tweaked.info_logging = true;
    tweaked.thruster_rpm_overlay = true;
    let restart = sup.apply_config(&mut session, tweaked);
    assert!(!restart);
    assert!(session.connected);
    assert!(session.termination().is_none());
    assert!(sup.config.info_logging);
}

#[test]
fn retry_wait_resolves_to_newest_config() {
    let mut sup = Supervisor::new(base_config(), SessionTiming::default());
    sup.resolve_retry(RetryEvent::TimerElapsed);
    assert_eq!(sup.config.ip_address, "10.10.10.10");

    let mut fresh = base_config();
    fresh.ip_address = String::from("192.168.0.2");
    sup.resolve_retry(RetryEvent::ConfigArrived(fresh));
    assert_eq!(sup.config.ip_address, "192.168.0.2");
}

#[test]
fn status_is_marked_down_before_each_new_attempt() {
    let mut sup = Supervisor::new(base_config(), SessionTiming::default());
    let (session, _) = sup.begin_session(2_000);
    sup.record_status(session.status());
    assert!(sup.status.connected);
    sup.mark_disconnected();
    assert!(!sup.status.connected);
    assert!(sup.status.latency_ms.is_none());
}

#[test]
fn only_shutdown_stops_the_retry_loop() {
    let mut sup = Supervisor::new(base_config(), SessionTiming::default());
    assert!(sup.should_retry());
    sup.mark_disconnected();
    assert!(sup.should_retry());
    sup.request_shutdown();
    assert!(!sup.should_retry());
}

#[test]
fn outbound_queue_drops_when_full_and_keeps_order() {
    let mut q = OutboundQueue::new(2);
    assert_eq!(q.len(), 0);
    assert!(q.push(TypedMessage::Ping(1)));
    assert!(q.push(TypedMessage::Ping(2)));
    assert!(!q.push(TypedMessage::Ping(3))); // full: defined drop
    assert_eq!(q.len(), 2);
    assert!(matches!(q.pop(), Some(TypedMessage::Ping(1))));
    assert!(matches!(q.pop(), Some(TypedMessage::Ping(2))));
    assert!(q.pop().is_none());
}

#[test]
fn sessions_restart_against_the_latest_endpoint() {
    // After an endpoint change the next session handle comes from the
    // supervisor's stored (new) configuration.
    let mut sup = Supervisor::new(base_config(), SessionTiming::default());
    let (mut session, _) = sup.begin_session(0);
    let mut moved = base_config();
    moved.ip_address = String::from("10.1.1.1");
    sup.apply_config(&mut session, moved);
    assert!(session.termination().is_some());
    let (fresh, _) = sup.begin_session(10);
    assert!(fresh.connected);
    assert!(fresh.termination().is_none());
    assert_eq!(sup.config.ip_address, "10.1.1.1");
}

#[test]
fn take_frame_frames_good_messages_and_drops_bad_ones() {
    let mut q = OutboundQueue::new(4);
    q.push(TypedMessage::Ping(7));
    // An unclamped command cannot be framed; taking it consumes and drops it.
    q.push(TypedMessage::Command(CommandVector {
        surge: 5000,
        sway: 0,
        heave: 0,
        pitch: 0,
        yaw: 0,
        roll: 0,
    }));
    q.push(TypedMessage::ConfigGet);
    let f1 = q.take_frame().expect("ping must frame");
    assert!(matches!(decode(&f1), Ok(TypedMessage::Ping(7))));
    assert!(q.take_frame().is_none()); // the bad command: dropped, nothing sent
    let f3 = q.take_frame().expect("config request must frame");
    assert!(matches!(decode(&f3), Ok(TypedMessage::ConfigGet)));
    assert!(q.take_frame().is_none()); // empty
    assert_eq!(q.len(), 0);
}

#[test]
fn lifecycle_walks_disconnected_connecting_connected() {
    let mut sup = Supervisor::new(base_config(), SessionTiming::default());
    assert!(matches!(sup.state, ConnectionState::Disconnected));
    sup.mark_connecting();
    assert!(matches!(sup.state, ConnectionState::Connecting));
    let (session, _) = sup.begin_session(0);
    sup.record_status(session.status());
    assert!(matches!(sup.state, ConnectionState::Connected));
    sup.mark_disconnected();
    assert!(matches!(sup.state, ConnectionState::Disconnected));
}

#[test]
fn session_timing_defaults_are_the_documented_pair() {
    let t = SessionTiming::default();
    assert_eq!(t.heartbeat_interval_ms, 2_000);
    assert_eq!(t.liveness_timeout_ms, 5_000);
}
