use rudp::packet::Packet;
use rudp::packet::PACKET_PAYLOAD_LEN;
use rudp::protocol::modify_header;
use rudp::protocol::modify_slot;
use rudp::protocol::PacketDesc;
use rudp::protocol::PacketHeader;
use rudp::protocol::HEADER_LEN;

#[test]
fn header_serialize_exact_bytes() {
    let h = PacketHeader::new(0x01020304, 0x05060708090a0b0c, -2);
    let bytes = h.serialize();
    assert_eq!(bytes.len(), HEADER_LEN);
    assert_eq!(&bytes[0..4], &[0x01, 0x02, 0x03, 0x04]);
    assert_eq!(&bytes[4..12], &[0x05, 0x06, 0x07, 0x08, 0x09, 0x0a, 0x0b, 0x0c]);
    // -2 in two's complement, big-endian
    assert_eq!(&bytes[12..20], &[0xff, 0xff, 0xff, 0xff, 0xff, 0xff, 0xff, 0xfe]);
}

#[test]
fn header_round_trip() {
    let h = PacketHeader::new(7, 3, 42);
    let mut bytes = h.serialize();
    bytes.extend_from_slice(&[0xaa, 0xbb]);
    let (parsed, payload) = PacketHeader::deserialize(&bytes).unwrap();
    assert_eq!(parsed, h);
    assert_eq!(payload, &[0xaa, 0xbb]);
}

#[test]
fn header_round_trip_negative_slot() {
    let h = PacketHeader::new(9, -4, i64::MIN);
    let bytes = h.serialize();
    let (parsed, payload) = PacketHeader::deserialize(&bytes).unwrap();
    assert_eq!(parsed, h);
    assert!(payload.is_empty());
}

#[test]
fn header_rejects_short_input() {
    let h = PacketHeader::new(1, 2, 3);
    let bytes = h.serialize();
    assert!(PacketHeader::deserialize(&bytes[0..HEADER_LEN - 1]).is_err());
    assert!(PacketHeader::deserialize(&[]).is_err());
}

#[test]
fn modify_header_rewrites_all_fields() {
    let mut buffer = PacketHeader::new(0, 0, 0).serialize();
    buffer.push(0x55);
    modify_header(&mut buffer, 9, -2, 5);
    let (parsed, payload) = PacketHeader::deserialize(&buffer).unwrap();
    assert_eq!(parsed, PacketHeader::new(9, -2, 5));
    assert_eq!(payload, &[0x55]);
}

#[test]
fn modify_slot_keeps_id_and_payload() {
    let mut buffer = PacketHeader::new(13, 1, 1).serialize();
    buffer.push(0x77);
    modify_slot(&mut buffer, 2, 8);
    let (parsed, payload) = PacketHeader::deserialize(&buffer).unwrap();
    assert_eq!(parsed, PacketHeader::new(13, 2, 8));
    assert_eq!(payload, &[0x77]);
}

#[test]
fn packet_round_trip() {
    let values = [
        Packet::Ping(true, 0, u64::MAX),
        Packet::Ping(false, 17, 3),
        Packet::Pong(true, u64::MAX, 0),
        Packet::Pong(false, 1, 2),
    ];
    for p in values {
        let mut payload = Vec::new();
        p.serialize(&mut payload);
        assert_eq!(payload.len(), PACKET_PAYLOAD_LEN);
        let parsed = Packet::deserialize(p.id(), &payload).unwrap();
        assert_eq!(parsed, p);
    }
}

#[test]
fn packet_flags() {
    assert_eq!(Packet::Ping(true, 1, 2).id(), 0);
    assert_eq!(Packet::Pong(true, 1, 2).id(), 1);
    assert!(Packet::Ping(true, 1, 2).reliable());
    assert!(!Packet::Pong(false, 1, 2).reliable());
    assert!(!Packet::ordered(0));
    assert!(Packet::ordered(1));
}

#[test]
fn packet_rejects_bad_input() {
    let mut payload = Vec::new();
    Packet::Ping(true, 5, 6).serialize(&mut payload);
    assert!(Packet::deserialize(2, &payload).is_err());
    assert!(Packet::deserialize(0, &payload[0..PACKET_PAYLOAD_LEN - 1]).is_err());
}
