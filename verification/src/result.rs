//! Probe result model: the immutable outcome of one probe attempt, with the
//! jitter rule that ties a success to the previous successful round-trip time.
//!
//! Durations and instants are carried as plain microsecond counts; the
//! wall-clock timestamp is carried as milliseconds since local midnight, which
//! is all the display reads of it.

use vstd::prelude::*;
use crate::fmt::{pad2_str, pad3_str, push_pad2, push_pad3};
use vstd::string::StringExecFns;

verus! {

/// Absolute difference of two microsecond durations.
pub open spec fn abs_diff_spec(a: u64, b: u64) -> u64 {
    if a >= b {
        (a - b) as u64
    } else {
        (b - a) as u64
    }
}

/// The jitter attached to a success: the absolute difference from the
/// previous successful round-trip time, absent when there is none.
pub open spec fn jitter_spec(prev_rtt_us: Option<u64>, rtt_us: u64) -> Option<u64> {
    match prev_rtt_us {
        Some(p) => Some(abs_diff_spec(rtt_us, p)),
        None => None,
    }
}

/// Milliseconds since local midnight rendered as `HH:MM:SS.mmm`.
pub open spec fn clock_str_spec(t_ms: u64) -> Seq<char> {
    pad2_str(t_ms as int / 3600000 % 24) + seq![':'] + pad2_str(t_ms as int / 60000 % 60)
        + seq![':'] + pad2_str(t_ms as int / 1000 % 60) + seq!['.'] + pad3_str(t_ms as int % 1000)
}

/// The outcome of one probe attempt. Created once by a probing session and
/// immutable afterwards.
#[derive(Clone, Copy, Debug, PartialEq, Eq)]
pub struct PingResult {
    /// Sequence number, 1-based and strictly increasing within a session.
    pub seq: u64,
    /// Round-trip time in microseconds; absent on timeout.
    pub rtt_us: Option<u64>,
    /// Monotonic send instant, microseconds since session start.
    pub sent_at_us: u64,
    /// Monotonic receive instant, microseconds since session start; absent on timeout.
    pub received_at_us: Option<u64>,
    /// Wall-clock milliseconds since local midnight, for display.
    pub timestamp_ms: u64,
    /// Absolute difference from the previous successful round-trip time;
    /// absent for the first success after a timeout or session start.
    pub jitter_us: Option<u64>,
}

impl PingResult {
    /// Invariant: a round-trip time is present exactly when a receive instant is.
    pub open spec fn wf(self) -> bool {
        self.rtt_us is Some <==> self.received_at_us is Some
    }

    /// A successful probe. Jitter is computed from the previous successful
    /// round-trip time when one exists.
    pub fn success(
        seq: u64,
        rtt_us: u64,
        sent_at_us: u64,
        received_at_us: u64,
        timestamp_ms: u64,
        prev_rtt_us: Option<u64>,
    ) -> (r: Self)
        ensures
            r.seq == seq,
            r.rtt_us == Some(rtt_us),
            r.sent_at_us == sent_at_us,
            r.received_at_us == Some(received_at_us),
            r.timestamp_ms == timestamp_ms,
            r.jitter_us == jitter_spec(prev_rtt_us, rtt_us),
            r.wf(),
    {
        let jitter_us: Option<u64> = match prev_rtt_us {
            Some(p) => Some(if rtt_us >= p {
                rtt_us - p
            } else {
                p - rtt_us
            }),
            None => None,
        };
        PingResult {
            seq,
            rtt_us: Some(rtt_us),
            sent_at_us,
            received_at_us: Some(received_at_us),
            timestamp_ms,
            jitter_us,
        }
    }

    /// A timed-out probe: round-trip time, receive instant and jitter all absent.
    pub fn timeout(seq: u64, sent_at_us: u64, timestamp_ms: u64) -> (r: Self)
        ensures
            r.seq == seq,
            r.rtt_us is None,
            r.sent_at_us == sent_at_us,
            r.received_at_us is None,
            r.timestamp_ms == timestamp_ms,
            r.jitter_us is None,
            r.wf(),
    {
        PingResult {
            seq,
            rtt_us: None,
            sent_at_us,
            received_at_us: None,
            timestamp_ms,
            jitter_us: None,
        }
    }

    /// Round-trip time in whole milliseconds, absent on timeout.
    pub fn rtt_ms(&self) -> (r: Option<u64>)
        ensures
            r == match self.rtt_us {
                Some(us) => Some((us / 1000) as u64),
                None => None::<u64>,
            },
    {
        match self.rtt_us {
            Some(us) => Some(us / 1000),
            None => None,
        }
    }

    /// The wall-clock timestamp rendered as `HH:MM:SS.mmm`.
    pub fn timestamp_str(&self) -> (r: String)
        ensures
            r@ == clock_str_spec(self.timestamp_ms),
    {
        let t = self.timestamp_ms;
        let mut s = String::new();
        push_pad2(&mut s, t / 3600000 % 24);
        proof {
            reveal_strlit(":");
            reveal_strlit(".");
        }
        s.append(":");
        push_pad2(&mut s, t / 60000 % 60);
        s.append(":");
        push_pad2(&mut s, t / 1000 % 60);
        s.append(".");
        push_pad3(&mut s, t % 1000);
        proof {
            assert(s@ =~= clock_str_spec(t));
        }
        s
    }
}

/// Law: a success that follows a success with round-trip time `r1` carries
/// jitter `|r2 - r1|`; one that follows a timeout (previous-RTT slot cleared)
/// carries none. `Some(r1)` is the slot a success leaves behind and `None`
/// the slot a timeout leaves behind.
pub proof fn lemma_jitter_rule(r1: u64, r2: u64)
    ensures
        jitter_spec(Some(r1), r2) == Some(abs_diff_spec(r2, r1)),
        jitter_spec(None::<u64>, r2) is None,
{
}

} // verus!
