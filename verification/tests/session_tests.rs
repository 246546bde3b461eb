use rovlink::codec::{decode, encode};
use rovlink::messages::TypedMessage;
use rovlink::session::{LinkSession, SessionTiming, TerminationReason};

fn timing() -> SessionTiming {
    SessionTiming::default()
}

#[test]
fn establish_sends_identification_ping_and_starts_clock() {
    let (s, frame) = LinkSession::establish(timing(), 10_000);
    assert!(s.connected);
    assert!(s.terminated.is_none());
    assert_eq!(s.last_heartbeat_ms, 10_000);
    assert!(matches!(decode(&frame), Ok(TypedMessage::Ping(10_000))));
}

#[test]
fn pong_yields_latency_and_connected_status() {
    // The station pings at t0; the mock peer echoes the timestamp; the
    // station reports a connected link with the measured round trip.
    let (mut s, ping) = LinkSession::establish(timing(), 50_000);
    let t0 = match decode(&ping) {
        Ok(TypedMessage::Ping(t)) => t,
        other => panic!("expected a ping frame, got {:?}", other),
    };
    let pong = encode(&TypedMessage::Pong(t0));
    let out = s.on_frame(&pong, 50_007);
    assert!(out.reply.is_none());
    assert!(out.deliver.is_none());
    let st = out.status.expect("a pong must emit a status event");
    assert!(st.connected);
    assert_eq!(st.latency_ms, Some(7));
    assert_eq!(s.last_heartbeat_ms, 50_007);
    assert!(s.terminated.is_none());
}

#[test]
fn pong_from_the_future_clamps_latency_at_zero() {
    let (mut s, _) = LinkSession::establish(timing(), 1_000);
    let pong = encode(&TypedMessage::Pong(2_000));
    let out = s.on_frame(&pong, 1_500);
    assert_eq!(out.status.unwrap().latency_ms, Some(0));
}

#[test]
fn inbound_ping_is_echoed_as_pong() {
    let (mut s, _) = LinkSession::establish(timing(), 1_000);
    let ping = encode(&TypedMessage::Ping(999));
    let out = s.on_frame(&ping, 1_200);
    let reply = out.reply.expect("a ping must be echoed");
    assert!(matches!(decode(&reply), Ok(TypedMessage::Pong(999))));
    assert_eq!(s.last_heartbeat_ms, 1_200);
}

#[test]
fn undecodable_frame_is_dropped_and_later_frames_still_work() {
    // A garbage frame leaves the session running; the next valid frame is
    // handled exactly as if the bad one had never arrived.
    let (mut s, _) = LinkSession::establish(timing(), 1_000);
    let before = s;

    let garbage: Vec<u8> = vec![0xDE, 0xAD, 0xBE, 0xEF];
    let out = s.on_frame(&garbage, 1_100);
    assert!(out.reply.is_none() && out.deliver.is_none() && out.status.is_none());
    assert_eq!(s.last_heartbeat_ms, before.last_heartbeat_ms);
    assert!(s.connected);
    assert!(s.terminated.is_none());

    let pong = encode(&TypedMessage::Pong(1_000));
    let out2 = s.on_frame(&pong, 1_250);
    assert_eq!(out2.status.unwrap().latency_ms, Some(250));
    assert!(s.terminated.is_none());
}

#[test]
fn deliverable_messages_do_not_touch_the_liveness_clock() {
    let (mut s, _) = LinkSession::establish(timing(), 1_000);
    let frame = encode(&TypedMessage::ConfigGet);
    let out = s.on_frame(&frame, 4_000);
    assert!(matches!(out.deliver, Some(TypedMessage::ConfigGet)));
    assert_eq!(s.last_heartbeat_ms, 1_000);
}

#[test]
fn silence_past_timeout_disconnects_without_any_socket_error() {
    // The peer goes quiet after the session starts. No read or write ever
    // fails, yet once the silence exceeds the liveness timeout the session
    // reports a dead link.
    let (mut s, _) = LinkSession::establish(timing(), 100_000);
    assert!(s.liveness_check(100_900));
    assert!(s.liveness_check(105_000)); // exactly at the limit: still alive
    assert!(s.connected);
    assert!(!s.liveness_check(105_001)); // one past the limit: dead
    assert!(!s.connected);
    assert_eq!(s.termination(), Some(TerminationReason::LivenessTimeout));
    assert!(!s.status().connected);
}

#[test]
fn heartbeats_keep_the_link_alive() {
    let (mut s, _) = LinkSession::establish(timing(), 0);
    let mut now = 0u64;
    for _ in 0..5 {
        now += 4_000;
        let pong = encode(&TypedMessage::Pong(now - 10));
        s.on_frame(&pong, now);
        assert!(s.liveness_check(now + 1_000));
    }
    assert!(s.connected);
}

#[test]
fn ping_schedule_follows_heartbeat_interval() {
    let (mut s, _) = LinkSession::establish(timing(), 10_000);
    assert!(!s.ping_due(11_999));
    assert!(s.ping_due(12_000));
    let frame = s.make_ping(12_000);
    assert!(matches!(decode(&frame), Ok(TypedMessage::Ping(12_000))));
    assert!(!s.ping_due(13_999));
    assert!(s.ping_due(14_000));
}

#[test]
fn transport_failures_terminate_the_session() {
    let (mut s, _) = LinkSession::establish(timing(), 0);
    s.on_send_result(true);
    assert!(s.terminated.is_none());
    s.on_send_result(false);
    assert_eq!(s.termination(), Some(TerminationReason::TransportError));
    assert!(!s.connected);

    let (mut s2, _) = LinkSession::establish(timing(), 0);
    s2.on_peer_close();
    assert_eq!(s2.termination(), Some(TerminationReason::PeerClosed));
    assert!(!s2.connected);
}
