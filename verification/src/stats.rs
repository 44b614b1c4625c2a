//! Running statistics over the probe result stream: counters, min/max/average
//! round-trip time, and packet-loss percentage.

use vstd::prelude::*;
use crate::fmt::{char_of_digit, dec_str, ms1_str, push_digit, push_ms1, push_u64};
use crate::result::PingResult;
use vstd::string::StringExecFns;

verus! {

/// Running statistics for one probing session, updated once per result.
#[derive(Clone, Copy, Debug)]
pub struct PingStats {
    /// Probes recorded, successes and timeouts together.
    pub total_sent: u64,
    /// Successful probes recorded.
    pub total_received: u64,
    /// Timed-out probes recorded.
    pub total_lost: u64,
    /// Smallest successful round-trip time, microseconds.
    pub min_rtt_us: Option<u64>,
    /// Largest successful round-trip time, microseconds.
    pub max_rtt_us: Option<u64>,
    /// Sum of successful round-trip times, microseconds.
    pub sum_rtt_us: u64,
}

/// The statistics of a fresh session.
pub open spec fn stats_empty() -> PingStats {
    PingStats {
        total_sent: 0,
        total_received: 0,
        total_lost: 0,
        min_rtt_us: None,
        max_rtt_us: None,
        sum_rtt_us: 0,
    }
}

/// The statistics after one more outcome is folded in: `Some(rtt_us)` for a
/// success, `None` for a timeout. Counter sums are truncating here; `record`
/// rules the overflow out.
pub open spec fn record_spec(s: PingStats, rtt_us: Option<u64>) -> PingStats {
    match rtt_us {
        Some(r) => PingStats {
            total_sent: (s.total_sent + 1) as u64,
            total_received: (s.total_received + 1) as u64,
            total_lost: s.total_lost,
            min_rtt_us: Some(
                match s.min_rtt_us {
                    Some(m) => if m <= r {
                        m
                    } else {
                        r
                    },
                    None => r,
                },
            ),
            max_rtt_us: Some(
                match s.max_rtt_us {
                    Some(m) => if m >= r {
                        m
                    } else {
                        r
                    },
                    None => r,
                },
            ),
            sum_rtt_us: (s.sum_rtt_us + r) as u64,
        },
        None => PingStats {
            total_sent: (s.total_sent + 1) as u64,
            total_received: s.total_received,
            total_lost: (s.total_lost + 1) as u64,
            min_rtt_us: s.min_rtt_us,
            max_rtt_us: s.max_rtt_us,
            sum_rtt_us: s.sum_rtt_us,
        },
    }
}

/// The average successful round-trip time, absent before the first success.
pub open spec fn avg_spec(s: PingStats) -> Option<u64> {
    if s.total_received > 0 {
        Some((s.sum_rtt_us / s.total_received) as u64)
    } else {
        None
    }
}

/// Packet loss in hundredths of a percent (10000 is 100%), zero when nothing
/// was sent, truncated toward zero.
pub open spec fn loss_hundredths_spec(s: PingStats) -> int {
    if s.total_sent == 0 {
        0
    } else {
        s.total_lost as int * 10000 / (s.total_sent as int)
    }
}

/// Packet loss in tenths of a percent, zero when nothing was sent.
pub open spec fn loss_tenths_spec(s: PingStats) -> int {
    if s.total_sent == 0 {
        0
    } else {
        s.total_lost as int * 1000 / (s.total_sent as int)
    }
}

/// A round-trip time as `ms1_str` milliseconds, `-` when absent.
pub open spec fn opt_ms1_str(o: Option<u64>) -> Seq<char> {
    match o {
        Some(us) => ms1_str(us as int),
        None => seq!['-'],
    }
}

/// The one-line statistics summary.
pub open spec fn format_stats_spec(s: PingStats) -> Seq<char> {
    "Sent: "@ + dec_str(s.total_sent as int) + " | Rcvd: "@ + dec_str(s.total_received as int)
        + " | Lost: "@ + dec_str(s.total_lost as int) + " ("@ + dec_str(loss_tenths_spec(s) / 10)
        + seq!['.'] + seq![char_of_digit(loss_tenths_spec(s) % 10)] + "%) | RTT min/avg/max: "@
        + opt_ms1_str(s.min_rtt_us) + seq!['/'] + opt_ms1_str(avg_spec(s)) + seq!['/']
        + opt_ms1_str(s.max_rtt_us) + " ms"@
}

impl PingStats {
    /// Invariant: every probe recorded is either received or lost.
    pub open spec fn wf(self) -> bool {
        self.total_sent == self.total_received + self.total_lost
    }

    /// Fresh statistics, everything zero and no round-trip times yet.
    pub fn new() -> (r: Self)
        ensures
            r == stats_empty(),
            r.wf(),
    {
        PingStats {
            total_sent: 0,
            total_received: 0,
            total_lost: 0,
            min_rtt_us: None,
            max_rtt_us: None,
            sum_rtt_us: 0,
        }
    }

    /// Fold one result in: the send counter always advances; a success also
    /// advances the receive counter and the min/max/sum of round-trip times,
    /// a timeout advances the loss counter.
    pub fn record(&mut self, result: &PingResult)
        requires
            old(self).wf(),
            old(self).total_sent < u64::MAX,
            result.rtt_us matches Some(r) ==> old(self).sum_rtt_us + r <= u64::MAX,
        ensures
            *final(self) == record_spec(*old(self), result.rtt_us),
            final(self).wf(),
    {
        self.total_sent = self.total_sent + 1;
        match result.rtt_us {
            Some(rtt) => {
                self.total_received = self.total_received + 1;
                self.sum_rtt_us = self.sum_rtt_us + rtt;
                self.min_rtt_us = Some(
                    match self.min_rtt_us {
                        Some(m) => if m <= rtt {
                            m
                        } else {
                            rtt
                        },
                        None => rtt,
                    },
                );
                self.max_rtt_us = Some(
                    match self.max_rtt_us {
                        Some(m) => if m >= rtt {
                            m
                        } else {
                            rtt
                        },
                        None => rtt,
                    },
                );
            },
            None => {
                self.total_lost = self.total_lost + 1;
            },
        }
    }

    /// The average successful round-trip time in microseconds, absent before
    /// the first success.
    pub fn avg_rtt(&self) -> (r: Option<u64>)
        ensures
            r == avg_spec(*self),
    {
        if self.total_received > 0 {
            Some(self.sum_rtt_us / self.total_received)
        } else {
            None
        }
    }

    /// Packet loss in hundredths of a percent: 2500 is 25.00%. Zero when
    /// nothing was sent yet.
    pub fn loss_percent_hundredths(&self) -> (r: u64)
        requires
            self.wf(),
        ensures
            r == loss_hundredths_spec(*self),
    {
        if self.total_sent == 0 {
            0
        } else {
            proof {
                lemma_loss_ratio_bounded(
                    self.total_lost as int,
                    self.total_sent as int,
                    10000,
                );
            }
            ((self.total_lost as u128) * 10000 / (self.total_sent as u128)) as u64
        }
    }

    /// The one-line summary the display shows: counters, loss percentage with
    /// one decimal digit, and min/avg/max round-trip times in milliseconds.
    pub fn format_stats(&self) -> (r: String)
        requires
            self.wf(),
        ensures
            r@ == format_stats_spec(*self),
    {
        let mut s = String::new();
        proof {
            reveal_strlit("Sent: ");
            reveal_strlit(" | Rcvd: ");
            reveal_strlit(" | Lost: ");
            reveal_strlit(" (");
            reveal_strlit(".");
            reveal_strlit("%) | RTT min/avg/max: ");
            reveal_strlit("-");
            reveal_strlit("/");
            reveal_strlit(" ms");
        }
        s.append("Sent: ");
        push_u64(&mut s, self.total_sent);
        s.append(" | Rcvd: ");
        push_u64(&mut s, self.total_received);
        s.append(" | Lost: ");
        push_u64(&mut s, self.total_lost);
        s.append(" (");
        let tenths: u64 = if self.total_sent == 0 {
            0
        } else {
            proof {
                lemma_loss_ratio_bounded(self.total_lost as int, self.total_sent as int, 1000);
            }
            ((self.total_lost as u128) * 1000 / (self.total_sent as u128)) as u64
        };
        push_u64(&mut s, tenths / 10);
        s.append(".");
        push_digit(&mut s, tenths % 10);
        s.append("%) | RTT min/avg/max: ");
        match self.min_rtt_us {
            Some(us) => push_ms1(&mut s, us),
            None => s.append("-"),
        }
        s.append("/");
        match self.avg_rtt() {
            Some(us) => push_ms1(&mut s, us),
            None => s.append("-"),
        }
        s.append("/");
        match self.max_rtt_us {
            Some(us) => push_ms1(&mut s, us),
            None => s.append("-"),
        }
        s.append(" ms");
        proof {
            assert(s@ =~= format_stats_spec(*self));
        }
        s
    }
}

/// With `lost <= sent` and `sent > 0`, the scaled loss ratio stays at or
/// below the scale factor.
proof fn lemma_loss_ratio_bounded(lost: int, sent: int, scale: int)
    requires
        0 <= lost <= sent,
        0 < sent,
        0 < scale,
    ensures
        0 <= lost * scale / sent <= scale,
{
    vstd::arithmetic::mul::lemma_mul_inequality(lost, sent, scale);
    vstd::arithmetic::div_mod::lemma_div_is_ordered(lost * scale, sent * scale, sent);
    vstd::arithmetic::div_mod::lemma_div_multiples_vanish(scale, sent);
    vstd::arithmetic::div_mod::lemma_div_pos_is_pos(lost * scale, sent);
    vstd::arithmetic::mul::lemma_mul_nonnegative(lost, scale);
}

/// The outcomes of a session as a sequence: `Some(rtt_us)` per success,
/// `None` per timeout.
pub open spec fn stats_after(outcomes: Seq<Option<u64>>) -> PingStats
    decreases outcomes.len(),
{
    if outcomes.len() == 0 {
        stats_empty()
    } else {
        record_spec(stats_after(outcomes.drop_last()), outcomes.last())
    }
}

/// How many outcomes are successes.
pub open spec fn count_some(s: Seq<Option<u64>>) -> int
    decreases s.len(),
{
    if s.len() == 0 {
        0
    } else {
        count_some(s.drop_last()) + if s.last() is Some {
            1int
        } else {
            0int
        }
    }
}

/// The sum of the successful round-trip times.
pub open spec fn sum_some(s: Seq<Option<u64>>) -> int
    decreases s.len(),
{
    if s.len() == 0 {
        0
    } else {
        sum_some(s.drop_last()) + match s.last() {
            Some(r) => r as int,
            None => 0,
        }
    }
}

/// The smallest successful round-trip time, absent without a success.
pub open spec fn min_some(s: Seq<Option<u64>>) -> Option<u64>
    decreases s.len(),
{
    if s.len() == 0 {
        None
    } else {
        let rest = min_some(s.drop_last());
        match s.last() {
            Some(r) => Some(
                match rest {
                    Some(m) => if m <= r {
                        m
                    } else {
                        r
                    },
                    None => r,
                },
            ),
            None => rest,
        }
    }
}

/// The largest successful round-trip time, absent without a success.
pub open spec fn max_some(s: Seq<Option<u64>>) -> Option<u64>
    decreases s.len(),
{
    if s.len() == 0 {
        None
    } else {
        let rest = max_some(s.drop_last());
        match s.last() {
            Some(r) => Some(
                match rest {
                    Some(m) => if m >= r {
                        m
                    } else {
                        r
                    },
                    None => r,
                },
            ),
            None => rest,
        }
    }
}

/// The counts of a session are never negative and successes never outnumber
/// probes; the sum of round-trip times is never negative.
proof fn lemma_outcome_counts(s: Seq<Option<u64>>)
    ensures
        0 <= count_some(s) <= s.len(),
        0 <= sum_some(s),
    decreases s.len(),
{
    if s.len() > 0 {
        lemma_outcome_counts(s.drop_last());
    }
}

/// Law: after recording any mix of successes and timeouts, the send counter
/// equals the number of outcomes, the receive counter the number of
/// successes, the loss counter the number of timeouts, and the sum, minimum
/// and maximum of round-trip times are those of the successes. With
/// `avg_spec` this pins the average to the sum of the successful round-trip
/// times divided by their number.
pub proof fn lemma_stats_fold(outcomes: Seq<Option<u64>>)
    requires
        outcomes.len() <= u64::MAX,
        sum_some(outcomes) <= u64::MAX,
    ensures
        stats_after(outcomes).total_sent == outcomes.len(),
        stats_after(outcomes).total_received == count_some(outcomes),
        stats_after(outcomes).total_lost == outcomes.len() - count_some(outcomes),
        stats_after(outcomes).sum_rtt_us == sum_some(outcomes),
        stats_after(outcomes).min_rtt_us == min_some(outcomes),
        stats_after(outcomes).max_rtt_us == max_some(outcomes),
    decreases outcomes.len(),
{
    if outcomes.len() > 0 {
        lemma_outcome_counts(outcomes);
        lemma_outcome_counts(outcomes.drop_last());
        lemma_stats_fold(outcomes.drop_last());
    }
}

} // verus!
