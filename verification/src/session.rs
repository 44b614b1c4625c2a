//! Probing session state machines. Each session owns the decision logic of
//! one pinger: sequence numbering, the pending table (UDP), and the
//! previous-RTT slot that jitter is computed from. The surrounding tasks do
//! the socket and timer work and hand plain instants in; every decision and
//! every produced result is pinned down here.

use vstd::prelude::*;
use crate::codec::{decode_packet, decode_spec, encode_packet, encode_spec, PACKET_LEN};
use crate::pending::{expired_spec, swept_map, PendingTable};
use crate::result::{jitter_spec, PingResult};

verus! {

/// The round-trip time a reply at `now_us` gives a probe sent at
/// `sent_at_us`: their distance, clamped to zero for a clock that did not
/// advance.
pub open spec fn rtt_spec(now_us: u64, sent_at_us: u64) -> u64 {
    if now_us >= sent_at_us {
        (now_us - sent_at_us) as u64
    } else {
        0
    }
}

/// One UDP client probing session: the sender, receiver and sweep tasks all
/// drive this state.
pub struct UdpSession {
    /// Last sequence number sent; the first probe is 1.
    pub seq: u64,
    /// In-flight probes awaiting a reply or the sweep.
    pub pending: PendingTable,
    /// Round-trip time of the previous success, cleared by every timeout;
    /// the jitter of the next success is measured against it.
    pub prev_rtt_us: Option<u64>,
}

impl UdpSession {
    /// Invariant: the pending table is consistent and holds only sequence
    /// numbers that were actually sent.
    pub open spec fn wf(self) -> bool {
        &&& self.pending.wf()
        &&& forall|k: u64| self.pending@.contains_key(k) ==> k <= self.seq
    }

    /// A fresh session: nothing sent, nothing pending, no previous RTT.
    pub fn new() -> (r: Self)
        ensures
            r.seq == 0,
            r.pending@ == Map::<u64, u64>::empty(),
            r.prev_rtt_us is None,
            r.wf(),
    {
        UdpSession { seq: 0, pending: PendingTable::new(), prev_rtt_us: None }
    }

    /// Sender tick at `now_us` (microseconds since session start): advance
    /// the sequence number, register the probe as pending, and build the
    /// datagram to transmit.
    pub fn on_tick(&mut self, now_us: u64) -> (packet: Vec<u8>)
        requires
            old(self).wf(),
            old(self).seq < u64::MAX,
        ensures
            final(self).wf(),
            final(self).seq == old(self).seq + 1,
            final(self).pending@ == old(self).pending@.insert((old(self).seq + 1) as u64, now_us),
            final(self).prev_rtt_us == old(self).prev_rtt_us,
            packet@ == encode_spec((old(self).seq + 1) as u64, now_us),
            packet@.len() == PACKET_LEN,
    {
        self.seq = self.seq + 1;
        proof {
            assert(!self.pending@.contains_key(self.seq));
        }
        self.pending.insert(self.seq, now_us);
        encode_packet(self.seq, now_us)
    }

    /// Receiver step on a datagram arriving at `now_us`: a malformed or
    /// foreign packet, or one whose sequence number is no longer pending (a
    /// late reply after a timeout, or a duplicate), produces nothing and
    /// changes nothing; a matching reply resolves the pending entry and
    /// produces the success result, with jitter against the previous-RTT
    /// slot, which it then holds.
    pub fn on_receive(&mut self, buf: &[u8], now_us: u64, wall_ms: u64) -> (r: Option<PingResult>)
        requires
            old(self).wf(),
        ensures
            final(self).wf(),
            final(self).seq == old(self).seq,
            decode_spec(buf@) is None ==> r is None && final(self).pending@ == old(self).pending@
                && final(self).prev_rtt_us == old(self).prev_rtt_us,
            decode_spec(buf@) matches Some(p) ==> if old(self).pending@.contains_key(p.0) {
                &&& final(self).pending@ == old(self).pending@.remove(p.0)
                &&& final(self).prev_rtt_us == Some(rtt_spec(now_us, old(self).pending@[p.0]))
                &&& r == Some(
                    (PingResult {
                        seq: p.0,
                        rtt_us: Some(rtt_spec(now_us, old(self).pending@[p.0])),
                        sent_at_us: old(self).pending@[p.0],
                        received_at_us: Some(now_us),
                        timestamp_ms: wall_ms,
                        jitter_us: jitter_spec(
                            old(self).prev_rtt_us,
                            rtt_spec(now_us, old(self).pending@[p.0]),
                        ),
                    }),
                )
            } else {
                r is None && final(self).pending@ == old(self).pending@ && final(self).prev_rtt_us
                    == old(self).prev_rtt_us
            },
    {
        match decode_packet(buf) {
            Some((seq, _timestamp_us)) => {
                match self.pending.remove(seq) {
                    Some(sent_at_us) => {
                        let rtt_us = if now_us >= sent_at_us {
                            now_us - sent_at_us
                        } else {
                            0
                        };
                        let prev = self.prev_rtt_us;
                        self.prev_rtt_us = Some(rtt_us);
                        let res = PingResult::success(
                            seq,
                            rtt_us,
                            sent_at_us,
                            now_us,
                            wall_ms,
                            prev,
                        );
                        Some(res)
                    },
                    None => {
                        proof {
                            assert(self.pending@ =~= old(self).pending@);
                        }
                        None
                    },
                }
            },
            None => None,
        }
    }

    /// Sweep step at `now_us`: every pending probe whose age exceeds
    /// `timeout_us` is evicted and reported as a timeout result, each exactly
    /// once; any timeout clears the previous-RTT slot, so the next success
    /// carries no jitter.
    pub fn on_sweep(&mut self, now_us: u64, timeout_us: u64, wall_ms: u64) -> (r: Vec<PingResult>)
        requires
            old(self).wf(),
        ensures
            final(self).wf(),
            final(self).seq == old(self).seq,
            final(self).pending@ == swept_map(old(self).pending@, now_us as int, timeout_us as int),
            r@.len() == 0 ==> final(self).prev_rtt_us == old(self).prev_rtt_us,
            r@.len() > 0 ==> final(self).prev_rtt_us is None,
            forall|i: int|
                0 <= i < r@.len() ==> (#[trigger] r@[i]).rtt_us is None && r@[i].received_at_us
                    is None && r@[i].jitter_us is None && r@[i].timestamp_ms == wall_ms,
            forall|i: int|
                0 <= i < r@.len() ==> old(self).pending@.contains_key((#[trigger] r@[i]).seq)
                    && r@[i].sent_at_us == old(self).pending@[r@[i].seq] && expired_spec(
                    now_us as int,
                    timeout_us as int,
                    r@[i].sent_at_us as int,
                ),
            forall|i: int, j: int|
                0 <= i < j < r@.len() ==> (#[trigger] r@[i]).seq != (#[trigger] r@[j]).seq,
            forall|k: u64|
                old(self).pending@.contains_key(k) && expired_spec(
                    now_us as int,
                    timeout_us as int,
                    old(self).pending@[k] as int,
                ) ==> exists|i: int| 0 <= i < r@.len() && (#[trigger] r@[i]).seq == k,
    {
        let expired = self.pending.sweep(now_us, timeout_us);
        let mut results: Vec<PingResult> = Vec::new();
        let mut j: usize = 0;
        while j < expired.len()
            invariant
                j <= expired@.len(),
                results@.len() == j,
                forall|i: int|
                    0 <= i < j ==> (#[trigger] results@[i]).seq == expired@[i].0
                        && results@[i].sent_at_us == expired@[i].1 && results@[i].rtt_us is None
                        && results@[i].received_at_us is None && results@[i].jitter_us is None
                        && results@[i].timestamp_ms == wall_ms,
            decreases expired@.len() - j,
        {
            let (seq, sent_at_us) = expired[j];
            results.push(PingResult::timeout(seq, sent_at_us, wall_ms));
            j = j + 1;
        }
        if results.len() > 0 {
            self.prev_rtt_us = None;
        }
        proof {
            assert forall|k: u64|
                old(self).pending@.contains_key(k) && expired_spec(
                    now_us as int,
                    timeout_us as int,
                    old(self).pending@[k] as int,
                ) implies exists|i: int| 0 <= i < results@.len() && (#[trigger] results@[i]).seq
                == k by {
                let i = choose|i: int| 0 <= i < expired@.len() && (#[trigger] expired@[i]).0 == k;
                assert(results@[i].seq == k);
            }
        }
        results
    }
}

/// One ICMP probing session: sequence numbering and the previous-RTT slot;
/// the echo call itself runs outside and reports back as a success or a
/// timeout.
pub struct IcmpSession {
    /// Last sequence number issued; the first probe is 1.
    pub seq: u64,
    /// Round-trip time of the previous success, cleared by every timeout.
    pub prev_rtt_us: Option<u64>,
}

impl IcmpSession {
    /// A fresh session.
    pub fn new() -> (r: Self)
        ensures
            r.seq == 0,
            r.prev_rtt_us is None,
    {
        IcmpSession { seq: 0, prev_rtt_us: None }
    }

    /// Timer tick: issue the next sequence number.
    pub fn on_tick(&mut self) -> (r: u64)
        requires
            old(self).seq < u64::MAX,
        ensures
            final(self).seq == old(self).seq + 1,
            final(self).prev_rtt_us == old(self).prev_rtt_us,
            r == final(self).seq,
    {
        self.seq = self.seq + 1;
        self.seq
    }

    /// An echo reply measured at `rtt_us`: produce the success result with
    /// jitter against the previous-RTT slot, then hold this round-trip time
    /// in the slot.
    pub fn on_reply(&mut self, seq: u64, rtt_us: u64, sent_at_us: u64, now_us: u64, wall_ms: u64)
        -> (r: PingResult)
        ensures
            final(self).seq == old(self).seq,
            final(self).prev_rtt_us == Some(rtt_us),
            r == (PingResult {
                seq,
                rtt_us: Some(rtt_us),
                sent_at_us,
                received_at_us: Some(now_us),
                timestamp_ms: wall_ms,
                jitter_us: jitter_spec(old(self).prev_rtt_us, rtt_us),
            }),
    {
        let prev = self.prev_rtt_us;
        self.prev_rtt_us = Some(rtt_us);
        PingResult::success(seq, rtt_us, sent_at_us, now_us, wall_ms, prev)
    }

    /// An echo that timed out or failed: produce the timeout result and
    /// clear the previous-RTT slot, so the next success carries no jitter.
    pub fn on_timeout(&mut self, seq: u64, sent_at_us: u64, wall_ms: u64) -> (r: PingResult)
        ensures
            final(self).seq == old(self).seq,
            final(self).prev_rtt_us is None,
            r == (PingResult {
                seq,
                rtt_us: None,
                sent_at_us,
                received_at_us: None,
                timestamp_ms: wall_ms,
                jitter_us: None,
            }),
    {
        self.prev_rtt_us = None;
        PingResult::timeout(seq, sent_at_us, wall_ms)
    }
}

} // verus!
