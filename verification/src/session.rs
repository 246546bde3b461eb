//! One lifetime of an established connection.
//!
//! A [`LinkSession`] holds the protocol state of a single connection: the
//! liveness clock, the latest latency sample and the termination flag. Every
//! decision of the session loop — what to do with an inbound frame, when to
//! send a heartbeat, when to declare the link dead — is a method here with an
//! exact contract; the transport loop outside the crate only performs the
//! resulting reads and writes.

use vstd::prelude::*;
use crate::codec::{decode, encode, encode_message, message_of};
use crate::messages::{MessageView, TypedMessage};
use crate::status::{sat_sub, round_trip_ms, ConnectionStatus};

verus! {

/// The timing constants a session runs under.
#[derive(Clone, Copy, Debug)]
pub struct SessionTiming {
    /// How often a ping is sent, in milliseconds.
    pub heartbeat_interval_ms: u64,
    /// Longest allowed silence before the link is declared dead.
    pub liveness_timeout_ms: u64,
}

impl Default for SessionTiming {
    /// Stock timing: a ping every two seconds, five seconds of silence
    /// before the link is declared dead.
    fn default() -> (t: SessionTiming)
        ensures
            t.heartbeat_interval_ms == 2000,
            t.liveness_timeout_ms == 5000,
    {
        SessionTiming { heartbeat_interval_ms: 2000, liveness_timeout_ms: 5000 }
    }
}

/// Why a session ended. None of these is fatal to the process: the
/// supervisor retries after every one of them.
#[derive(Clone, Copy, PartialEq, Eq, Structural, Debug)]
pub enum TerminationReason {
    /// The peer closed the connection.
    PeerClosed,
    /// A read or write on the transport failed.
    TransportError,
    /// No heartbeat arrived within the liveness timeout.
    LivenessTimeout,
    /// The configured endpoint changed; the supervisor reconnects to the new
    /// target.
    EndpointChanged,
}

/// Protocol state of one established connection.
#[derive(Clone, Copy, Debug)]
pub struct LinkSession {
    pub timing: SessionTiming,
    /// When the last heartbeat (ping or pong) was seen, in milliseconds.
    pub last_heartbeat_ms: u64,
    /// When the last ping was sent, in milliseconds.
    pub last_ping_ms: u64,
    /// Most recent round-trip latency sample.
    pub latency_ms: Option<u64>,
    /// Whether the link currently counts as alive.
    pub connected: bool,
    /// Set once the session has decided to end, and why.
    pub terminated: Option<TerminationReason>,
}

/// A frame holds a heartbeat (ping or pong) message.
pub open spec fn is_heartbeat_frame(f: Seq<u8>) -> bool {
    match message_of(f) {
        Option::Some(MessageView::Ping(_)) => true,
        Option::Some(MessageView::Pong(_)) => true,
        _ => false,
    }
}

/// The latency sample a pong yields: receive time minus echoed send time,
/// clamped at zero.
pub open spec fn rtt_of(now_ms: u64, sent_ms: u64) -> u64 {
    sat_sub(now_ms as int, sent_ms as int) as u64
}

/// Everything one inbound frame causes: the state afterwards, an optional
/// reply frame, an optional message for the application, and an optional
/// status event for the UI.
pub struct FrameStep {
    pub state: LinkSession,
    pub reply: Option<Seq<u8>>,
    pub deliver: Option<MessageView>,
    pub status: Option<ConnectionStatus>,
}

/// What an inbound frame does to a session.
///
/// A frame that does not decode changes nothing and is dropped. A ping
/// resets the liveness clock and is echoed as a pong. A pong resets the
/// clock and yields a fresh latency sample and a status event. Every other
/// message is handed to the application unchanged. No inbound frame ever
/// terminates the session, and none ever takes `connected` from true to
/// false.
pub open spec fn frame_step(s: LinkSession, frame: Seq<u8>, now_ms: u64) -> FrameStep {
    match message_of(frame) {
        Option::None => FrameStep {
            state: s,
            reply: Option::None,
            deliver: Option::None,
            status: Option::None,
        },
        Option::Some(MessageView::Ping(ts)) => FrameStep {
            state: LinkSession { last_heartbeat_ms: now_ms, connected: true, ..s },
            reply: Option::Some(encode_message(MessageView::Pong(ts))),
            deliver: Option::None,
            status: if s.connected {
                Option::None
            } else {
                Option::Some(ConnectionStatus { connected: true, latency_ms: s.latency_ms })
            },
        },
        Option::Some(MessageView::Pong(ts)) => FrameStep {
            state: LinkSession {
                last_heartbeat_ms: now_ms,
                latency_ms: Option::Some(rtt_of(now_ms, ts)),
                connected: true,
                ..s
            },
            reply: Option::None,
            deliver: Option::None,
            status: Option::Some(
                ConnectionStatus {
                    connected: true,
                    latency_ms: Option::Some(rtt_of(now_ms, ts)),
                },
            ),
        },
        Option::Some(m) => FrameStep {
            state: s,
            reply: Option::None,
            deliver: Option::Some(m),
            status: Option::None,
        },
    }
}

/// The link has been silent past its liveness timeout.
pub open spec fn liveness_expired(s: LinkSession, now_ms: u64) -> bool {
    sat_sub(now_ms as int, s.last_heartbeat_ms as int) > s.timing.liveness_timeout_ms as int
}

/// What a liveness check does: on expiry the session is terminated and
/// marked disconnected, otherwise nothing changes.
pub open spec fn liveness_step(s: LinkSession, now_ms: u64) -> LinkSession {
    if liveness_expired(s, now_ms) {
        LinkSession {
            connected: false,
            terminated: Option::Some(TerminationReason::LivenessTimeout),
            ..s
        }
    } else {
        s
    }
}

/// What one inbound frame causes, in executable form.
pub struct FrameOutcome {
    /// A frame to write back to the peer, if any.
    pub reply: Option<Vec<u8>>,
    /// A decoded message for the application, if any.
    pub deliver: Option<TypedMessage>,
    /// A status event for the UI, if any.
    pub status: Option<ConnectionStatus>,
}

impl LinkSession {
    /// Start the protocol state for a just-established connection. The
    /// returned frame is the identification ping the station sends first;
    /// the liveness clock starts now.
    pub fn establish(timing: SessionTiming, now_ms: u64) -> (r: (LinkSession, Vec<u8>))
        ensures
            r.0 == (LinkSession {
                timing,
                last_heartbeat_ms: now_ms,
                last_ping_ms: now_ms,
                latency_ms: Option::None,
                connected: true,
                terminated: Option::None,
            }),
            r.1@ == encode_message(MessageView::Ping(now_ms)),
    {
        let frame = encode(&TypedMessage::Ping(now_ms));
        let s = LinkSession {
            timing,
            last_heartbeat_ms: now_ms,
            last_ping_ms: now_ms,
            latency_ms: None,
            connected: true,
            terminated: None,
        };
        (s, frame)
    }

    /// Handle one inbound frame. The contract is exactly [`frame_step`]; in
    /// particular a frame that does not decode leaves the session untouched,
    /// and no frame ever revokes `connected`.
    pub fn on_frame(&mut self, frame: &[u8], now_ms: u64) -> (out: FrameOutcome)
        ensures
            *final(self) == frame_step(*old(self), frame@, now_ms).state,
            (match out.reply {
                Option::Some(r) => frame_step(*old(self), frame@, now_ms).reply == Option::Some(
                    r@,
                ),
                Option::None => frame_step(*old(self), frame@, now_ms).reply is None,
            }),
            (match out.deliver {
                Option::Some(m) => frame_step(*old(self), frame@, now_ms).deliver == Option::Some(
                    m@,
                ),
                Option::None => frame_step(*old(self), frame@, now_ms).deliver is None,
            }),
            out.status == frame_step(*old(self), frame@, now_ms).status,
            old(self).connected ==> final(self).connected,
            final(self).terminated == old(self).terminated,
    {
        match decode(frame) {
            Ok(TypedMessage::Ping(ts)) => {
                let was_connected = self.connected;
                self.last_heartbeat_ms = now_ms;
                self.connected = true;
                let reply = encode(&TypedMessage::Pong(ts));
                FrameOutcome {
                    reply: Some(reply),
                    deliver: None,
                    status: if was_connected {
                        None
                    } else {
                        Some(ConnectionStatus { connected: true, latency_ms: self.latency_ms })
                    },
                }
            },
            Ok(TypedMessage::Pong(ts)) => {
                let rtt = round_trip_ms(now_ms, ts);
                self.last_heartbeat_ms = now_ms;
                self.latency_ms = Some(rtt);
                self.connected = true;
                FrameOutcome {
                    reply: None,
                    deliver: None,
                    status: Some(
                        ConnectionStatus { connected: true, latency_ms: Some(rtt) },
                    ),
                }
            },
            Ok(m) => FrameOutcome { reply: None, deliver: Some(m), status: None },
            Err(_) => FrameOutcome { reply: None, deliver: None, status: None },
        }
    }

    /// Check the liveness clock. Returns whether the link is still alive;
    /// on expiry the session is terminated and marked disconnected, exactly
    /// as [`liveness_step`] says.
    pub fn liveness_check(&mut self, now_ms: u64) -> (alive: bool)
        ensures
            alive == !liveness_expired(*old(self), now_ms),
            *final(self) == liveness_step(*old(self), now_ms),
    {
        let silence = if now_ms >= self.last_heartbeat_ms {
            now_ms - self.last_heartbeat_ms
        } else {
            0
        };
        if silence > self.timing.liveness_timeout_ms {
            self.connected = false;
            self.terminated = Some(TerminationReason::LivenessTimeout);
            false
        } else {
            true
        }
    }

    /// Another heartbeat is due.
    pub fn ping_due(&self, now_ms: u64) -> (due: bool)
        ensures
            due == (sat_sub(now_ms as int, self.last_ping_ms as int)
                >= self.timing.heartbeat_interval_ms as int),
    {
        let elapsed = if now_ms >= self.last_ping_ms {
            now_ms - self.last_ping_ms
        } else {
            0
        };
        elapsed >= self.timing.heartbeat_interval_ms
    }

    /// Build the next heartbeat frame, carrying the current time, and record
    /// that it was sent now.
    pub fn make_ping(&mut self, now_ms: u64) -> (frame: Vec<u8>)
        ensures
            frame@ == encode_message(MessageView::Ping(now_ms)),
            *final(self) == (LinkSession { last_ping_ms: now_ms, ..*old(self) }),
    {
        self.last_ping_ms = now_ms;
        encode(&TypedMessage::Ping(now_ms))
    }

    /// End the session deliberately for the given reason, marking the link
    /// down.
    pub fn terminate(&mut self, reason: TerminationReason)
        ensures
            *final(self) == (LinkSession {
                connected: false,
                terminated: Option::Some(reason),
                ..*old(self)
            }),
    {
        self.connected = false;
        self.terminated = Some(reason);
    }

    /// A write on the transport finished; a failure terminates the session.
    pub fn on_send_result(&mut self, ok: bool)
        ensures
            ok ==> *final(self) == *old(self),
            !ok ==> *final(self) == (LinkSession {
                connected: false,
                terminated: Option::Some(TerminationReason::TransportError),
                ..*old(self)
            }),
    {
        if !ok {
            self.terminate(TerminationReason::TransportError);
        }
    }

    /// The peer closed the connection.
    pub fn on_peer_close(&mut self)
        ensures
            *final(self) == (LinkSession {
                connected: false,
                terminated: Option::Some(TerminationReason::PeerClosed),
                ..*old(self)
            }),
    {
        self.terminate(TerminationReason::PeerClosed);
    }

    /// The status event describing this session's link right now.
    pub fn status(&self) -> (st: ConnectionStatus)
        ensures
            st == (ConnectionStatus { connected: self.connected, latency_ms: self.latency_ms }),
    {
        ConnectionStatus { connected: self.connected, latency_ms: self.latency_ms }
    }

    /// Whether and why the session has ended.
    pub fn termination(&self) -> (r: Option<TerminationReason>)
        ensures
            r == self.terminated,
    {
        self.terminated
    }
}

/// The state after a whole sequence of inbound frames, each paired with its
/// arrival time.
pub open spec fn run_frames(s: LinkSession, frames: Seq<(Seq<u8>, u64)>) -> LinkSession
    decreases frames.len(),
{
    if frames.len() == 0 {
        s
    } else {
        run_frames(frame_step(s, frames[0].0, frames[0].1).state, frames.drop_first())
    }
}

/// Once the link counts as connected, no inbound frame ever revokes that:
/// only a liveness expiry, a transport fault, a peer close or an endpoint
/// change takes the status down.
pub proof fn lemma_no_status_flicker(s: LinkSession, frame: Seq<u8>, now_ms: u64)
    requires
        s.connected,
    ensures
        frame_step(s, frame, now_ms).state.connected,
{
}

/// A decode failure is isolated: after a frame that does not decode, the
/// session handles every following frame exactly as if the bad frame had
/// never arrived.
pub proof fn lemma_decode_fault_isolated(
    s: LinkSession,
    bad: Seq<u8>,
    t_bad: u64,
    next: Seq<u8>,
    t_next: u64,
)
    requires
        message_of(bad) is None,
    ensures
        frame_step(s, bad, t_bad).state == s,
        frame_step(frame_step(s, bad, t_bad).state, next, t_next) == frame_step(s, next, t_next),
{
}

/// Silence is detected whatever else arrives: a run of frames none of which
/// is a heartbeat never touches the liveness clock, so once the clock is
/// past the timeout the liveness check declares the link dead.
pub proof fn lemma_silence_is_detected(s: LinkSession, frames: Seq<(Seq<u8>, u64)>, now_ms: u64)
    requires
        forall|k: int| 0 <= k < frames.len() ==> !is_heartbeat_frame(#[trigger] frames[k].0),
        liveness_expired(s, now_ms),
    ensures
        run_frames(s, frames).last_heartbeat_ms == s.last_heartbeat_ms,
        run_frames(s, frames).timing == s.timing,
        liveness_expired(run_frames(s, frames), now_ms),
        liveness_step(run_frames(s, frames), now_ms).connected == false,
        liveness_step(run_frames(s, frames), now_ms).terminated == Option::Some(
            TerminationReason::LivenessTimeout,
        ),
    decreases frames.len(),
{
    if frames.len() > 0 {
        let s1 = frame_step(s, frames[0].0, frames[0].1).state;
        assert(!is_heartbeat_frame(frames[0].0));
        assert(s1.last_heartbeat_ms == s.last_heartbeat_ms && s1.timing == s.timing);
        assert(liveness_expired(s1, now_ms));
        assert(forall|k: int|
            0 <= k < frames.drop_first().len() ==> !is_heartbeat_frame(
                #[trigger] frames.drop_first()[k].0,
            ));
        lemma_silence_is_detected(s1, frames.drop_first(), now_ms);
    }
}

} // verus!
