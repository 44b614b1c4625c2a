//! Wire codec behaviour: round trips, layout, and rejection of short or
//! foreign buffers.

use pinggraph::codec::{decode_packet, encode_packet};

#[test]
fn test_packet_encoding() {
    let seq = 12345u64;
    let timestamp = 9876543210u64;
    let packet = encode_packet(seq, timestamp);

    let (decoded_seq, decoded_ts) = decode_packet(&packet).unwrap();
    assert_eq!(seq, decoded_seq);
    assert_eq!(timestamp, decoded_ts);
}

#[test]
fn test_invalid_packet() {
    assert!(decode_packet(&[0; 10]).is_none()); // Too short
    assert!(decode_packet(b"NOPE12345678901234567890").is_none()); // Wrong magic
}

#[test]
fn round_trip_edge_values() {
    for &(seq, ts) in &[(0u64, 0u64), (1, 1), (u64::MAX, 0), (0, u64::MAX), (u64::MAX, u64::MAX)] {
        let packet = encode_packet(seq, ts);
        assert_eq!(decode_packet(&packet), Some((seq, ts)));
    }
}

#[test]
fn packet_layout() {
    let packet = encode_packet(0x0102030405060708, 0x1112131415161718);
    assert_eq!(packet.len(), 20);
    assert_eq!(&packet[0..4], b"PING");
    assert_eq!(&packet[4..12], &[1, 2, 3, 4, 5, 6, 7, 8]);
    assert_eq!(&packet[12..20], &[0x11, 0x12, 0x13, 0x14, 0x15, 0x16, 0x17, 0x18]);
}

#[test]
fn nineteen_bytes_rejected_even_with_magic() {
    let packet = encode_packet(7, 7);
    assert!(decode_packet(&packet[0..19]).is_none());
    assert!(decode_packet(&[]).is_none());
}

#[test]
fn wrong_magic_rejected_at_full_length() {
    let mut packet = encode_packet(7, 7);
    packet[3] = b'g';
    assert!(decode_packet(&packet).is_none());
}

#[test]
fn extra_bytes_after_packet_are_ignored() {
    let mut packet = encode_packet(42, 99);
    packet.push(0xFF);
    packet.push(0xFF);
    assert_eq!(decode_packet(&packet), Some((42, 99)));
}
