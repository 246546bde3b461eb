//! Connection status and latency arithmetic.

use vstd::prelude::*;

verus! {

/// The lifecycle of the link, as shown to the operator.
#[derive(Clone, Copy, PartialEq, Eq, Structural, Debug)]
pub enum ConnectionState {
    Disconnected,
    Connecting,
    Connected,
}

/// What the UI is told about the link: whether it is up, and the most recent
/// round-trip latency sample if one was measured.
#[derive(Clone, Copy, Debug)]
pub struct ConnectionStatus {
    pub connected: bool,
    pub latency_ms: Option<u64>,
}

/// Subtraction on the time line that never goes below zero.
pub open spec fn sat_sub(a: int, b: int) -> int {
    if a >= b {
        a - b
    } else {
        0
    }
}

/// Round-trip latency from a heartbeat echo: local receive time minus the
/// embedded send time, clamped at zero so a clock glitch can never produce a
/// negative sample.
pub fn round_trip_ms(now_ms: u64, sent_ms: u64) -> (r: u64)
    ensures
        r as int == sat_sub(now_ms as int, sent_ms as int),
        sent_ms <= now_ms ==> r == now_ms - sent_ms,
        sent_ms > now_ms ==> r == 0,
{
    if now_ms >= sent_ms {
        now_ms - sent_ms
    } else {
        0
    }
}

/// A latency sample is never negative, and when clocks behave it is the
/// exact difference between receive and send time.
pub proof fn lemma_latency_nonnegative(now_ms: u64, sent_ms: u64)
    ensures
        sat_sub(now_ms as int, sent_ms as int) >= 0,
        sent_ms <= now_ms ==> sat_sub(now_ms as int, sent_ms as int) == now_ms - sent_ms,
{
}

} // verus!
