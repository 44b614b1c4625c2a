//! Session state machines: jitter tracking, the pending table, the timeout
//! sweep, and the server's echo decision.

use pinggraph::codec::decode_packet;
use pinggraph::server::UdpServer;
use pinggraph::session::{IcmpSession, UdpSession};

#[test]
fn icmp_jitter_between_successes() {
    let mut s = IcmpSession::new();
    let seq1 = s.on_tick();
    assert_eq!(seq1, 1);
    // First success: 100ms, no previous RTT, so no jitter.
    let r1 = s.on_reply(seq1, 100_000, 0, 100_000, 0);
    assert_eq!(r1.rtt_us, Some(100_000));
    assert_eq!(r1.jitter_us, None);
    // Second success: 130ms; jitter is the absolute difference, 30ms.
    let seq2 = s.on_tick();
    let r2 = s.on_reply(seq2, 130_000, 0, 130_000, 0);
    assert_eq!(r2.jitter_us, Some(30_000));
    // Jitter is symmetric: a faster probe next gives |90 - 130| = 40ms.
    let seq3 = s.on_tick();
    let r3 = s.on_reply(seq3, 90_000, 0, 90_000, 0);
    assert_eq!(r3.jitter_us, Some(40_000));
}

#[test]
fn icmp_timeout_resets_jitter() {
    let mut s = IcmpSession::new();
    let seq1 = s.on_tick();
    s.on_reply(seq1, 100_000, 0, 100_000, 0);
    let seq2 = s.on_tick();
    let t = s.on_timeout(seq2, 0, 0);
    assert_eq!(t.rtt_us, None);
    assert_eq!(t.jitter_us, None);
    // The success after a timeout has no jitter again.
    let seq3 = s.on_tick();
    let r3 = s.on_reply(seq3, 130_000, 0, 130_000, 0);
    assert_eq!(r3.jitter_us, None);
}

#[test]
fn udp_round_trip_produces_success() {
    let mut s = UdpSession::new();
    let packet = s.on_tick(1_000);
    assert_eq!(decode_packet(&packet), Some((1, 1_000)));
    // The server echoes the packet back; the reply resolves the entry.
    let r = s.on_receive(&packet, 151_000, 77).expect("matching reply");
    assert_eq!(r.seq, 1);
    assert_eq!(r.rtt_us, Some(150_000));
    assert_eq!(r.sent_at_us, 1_000);
    assert_eq!(r.received_at_us, Some(151_000));
    assert_eq!(r.timestamp_ms, 77);
    assert_eq!(r.jitter_us, None);
    // A duplicate of the same reply is dropped, not double-counted.
    assert!(s.on_receive(&packet, 152_000, 77).is_none());
}

#[test]
fn udp_jitter_and_timeout_reset() {
    let mut s = UdpSession::new();
    let p1 = s.on_tick(0);
    let r1 = s.on_receive(&p1, 100_000, 0).unwrap();
    assert_eq!(r1.jitter_us, None);
    let p2 = s.on_tick(1_000_000);
    let r2 = s.on_receive(&p2, 1_130_000, 0).unwrap();
    assert_eq!(r2.rtt_us, Some(130_000));
    assert_eq!(r2.jitter_us, Some(30_000));
    // A probe lost to the sweep clears the slot.
    let _p3 = s.on_tick(2_000_000);
    let timeouts = s.on_sweep(6_000_000, 3_000_000, 0);
    assert_eq!(timeouts.len(), 1);
    let p4 = s.on_tick(7_000_000);
    let r4 = s.on_receive(&p4, 7_050_000, 0).unwrap();
    assert_eq!(r4.jitter_us, None);
}

#[test]
fn udp_malformed_and_foreign_packets_ignored() {
    let mut s = UdpSession::new();
    let _ = s.on_tick(0);
    assert!(s.on_receive(&[0u8; 10], 1, 0).is_none());
    assert!(s.on_receive(b"NOPE12345678901234567890", 1, 0).is_none());
    // A well-formed packet with an unknown sequence number is dropped.
    let foreign = pinggraph::codec::encode_packet(999, 0);
    assert!(s.on_receive(&foreign, 1, 0).is_none());
}

#[test]
fn sweep_evicts_overdue_exactly_once() {
    // A request inserted at t with timeout T is evicted and reported once
    // no reply arrived by t + T, and never reported twice even if the reply
    // arrives right after the sweep.
    let t = 5_000u64;
    let timeout_us = 3_000_000u64;
    let mut s = UdpSession::new();
    let packet = s.on_tick(t);
    // Not yet overdue at exactly t + T: age must strictly exceed the timeout.
    let none_yet = s.on_sweep(t + timeout_us, timeout_us, 0);
    assert!(none_yet.is_empty());
    // Overdue one microsecond later.
    let reported = s.on_sweep(t + timeout_us + 1, timeout_us, 0);
    assert_eq!(reported.len(), 1);
    assert_eq!(reported[0].seq, 1);
    assert_eq!(reported[0].sent_at_us, t);
    assert_eq!(reported[0].rtt_us, None);
    // The late reply finds nothing to resolve.
    assert!(s.on_receive(&packet, t + timeout_us + 2, 0).is_none());
    // A later sweep cannot report it again.
    let again = s.on_sweep(t + 2 * timeout_us, timeout_us, 0);
    assert!(again.is_empty());
}

#[test]
fn sweep_reports_every_overdue_entry() {
    let mut s = UdpSession::new();
    let _p1 = s.on_tick(0);
    let _p2 = s.on_tick(1_000_000);
    let p3 = s.on_tick(8_000_000);
    let reported = s.on_sweep(8_500_000, 3_000_000, 0);
    let mut seqs: Vec<u64> = reported.iter().map(|r| r.seq).collect();
    seqs.sort();
    assert_eq!(seqs, vec![1, 2]);
    // The fresh probe is still pending and can be resolved.
    assert!(s.on_receive(&p3, 8_600_000, 0).is_some());
}

#[test]
fn server_echo_decision() {
    let server = UdpServer::new(None, 44444);
    assert_eq!(server.bind, None);
    assert_eq!(server.port, 44444);
    let packet = pinggraph::codec::encode_packet(1, 2);
    let mut buf = [0u8; 32];
    buf[..20].copy_from_slice(&packet);
    assert!(UdpServer::should_echo(&buf, 20));
    assert!(UdpServer::should_echo(&buf, 25)); // longer datagrams echo too
    assert!(!UdpServer::should_echo(&buf, 19)); // short datagrams dropped
    let mut foreign = [0u8; 32];
    foreign[..24].copy_from_slice(b"NOPE12345678901234567890");
    assert!(!UdpServer::should_echo(&foreign, 24)); // wrong magic dropped
}
