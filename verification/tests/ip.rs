use rust_tcpip::addr::Ipv4Addr;
use rust_tcpip::checksum::verify_checksum;
use rust_tcpip::error::StackError;
use rust_tcpip::ip::Ipv4Packet;

fn header_with_options() -> Vec<u8> {
    vec![
        0x46, 0x10, 0x00, 0x1c, 0xab, 0xcd, 0x5f, 0xff, 64, 17, 0x12, 0x34, // fixed part
        10, 0, 0, 1, 10, 0, 0, 2, // addresses
        1, 1, 1, 1, // one word of options
        0xde, 0xad, 0xbe, 0xef, // payload
    ]
}

#[test]
fn ipv4_parse_reads_every_field() {
    let packet = Ipv4Packet::parse(&header_with_options()).unwrap();
    assert_eq!(packet.version, 4);
    assert_eq!(packet.ihl, 6);
    assert_eq!(packet.tos, 0x10);
    assert_eq!(packet.total_length, 28);
    assert_eq!(packet.identification, 0xabcd);
    assert_eq!(packet.flags, 2);
    assert_eq!(packet.fragment_offset, 0x1fff);
    assert_eq!(packet.ttl, 64);
    assert_eq!(packet.protocol, 17);
    assert_eq!(packet.checksum, 0x1234);
    assert_eq!(packet.src_addr, Ipv4Addr::new(10, 0, 0, 1));
    assert_eq!(packet.dst_addr, Ipv4Addr::new(10, 0, 0, 2));
}

#[test]
fn ipv4_payload_starts_after_the_options() {
    let packet = Ipv4Packet::parse(&header_with_options()).unwrap();
    assert_eq!(packet.ihl, 6);
    assert_eq!(packet.payload, vec![0xde, 0xad, 0xbe, 0xef]);
}

#[test]
fn ipv4_payload_of_a_plain_header_starts_at_byte_20() {
    let mut bytes = header_with_options();
    bytes[0] = 0x45;
    let packet = Ipv4Packet::parse(&bytes).unwrap();
    assert_eq!(packet.payload, vec![1, 1, 1, 1, 0xde, 0xad, 0xbe, 0xef]);
}

#[test]
fn ipv4_parse_rejects_short_packets() {
    match Ipv4Packet::parse(&header_with_options()[..19]) {
        Err(StackError::InvalidPacket(msg)) => assert_eq!(msg, "Ip packet too short"),
        other => panic!("unexpected {:?}", other),
    }
}

#[test]
fn ipv4_parse_rejects_a_header_longer_than_the_packet() {
    let mut bytes = header_with_options();
    bytes[0] = 0x4f;
    match Ipv4Packet::parse(&bytes) {
        Err(StackError::InvalidPacket(msg)) => assert_eq!(msg, "Ip header too short"),
        other => panic!("unexpected {:?}", other),
    }
    bytes[0] = 0x47;
    let packet = Ipv4Packet::parse(&bytes).unwrap();
    assert_eq!(packet.ihl, 7);
    assert!(packet.payload.is_empty());
}

#[test]
fn ipv4_build_fills_in_the_header() {
    let packet = Ipv4Packet::build(
        Ipv4Addr::new(192, 168, 10, 2),
        Ipv4Addr::new(192, 168, 10, 1),
        1,
        64,
        vec![0u8; 11],
    );
    assert_eq!(packet.version, 4);
    assert_eq!(packet.ihl, 5);
    assert_eq!(packet.tos, 0);
    assert_eq!(packet.total_length, 31);
    assert_eq!(packet.identification, 0);
    assert_eq!(packet.flags, 0);
    assert_eq!(packet.fragment_offset, 0);
    assert_eq!(packet.ttl, 64);
    assert_eq!(packet.protocol, 1);
    assert_eq!(packet.checksum, 0xe58a);
    assert_eq!(packet.payload.len(), 11);
}

#[test]
fn ipv4_to_bytes_writes_the_header_checksum() {
    let packet = Ipv4Packet::build(
        Ipv4Addr::new(10, 0, 0, 1),
        Ipv4Addr::new(10, 0, 0, 2),
        17,
        64,
        vec![1, 2, 3, 4],
    );
    let bytes = packet.to_bytes();
    assert_eq!(
        bytes,
        vec![69, 0, 0, 24, 0, 0, 0, 0, 64, 17, 102, 211, 10, 0, 0, 1, 10, 0, 0, 2, 1, 2, 3, 4]
    );
    assert!(verify_checksum(&bytes[..20]));
    assert_eq!(Ipv4Packet::calculate_ip_checksum(&bytes[..20]), 0);
}

#[test]
fn ipv4_to_bytes_packs_flags_and_offset() {
    let mut packet = Ipv4Packet::build(
        Ipv4Addr::new(10, 0, 0, 1),
        Ipv4Addr::new(10, 0, 0, 2),
        6,
        1,
        vec![],
    );
    packet.flags = 0b101;
    packet.fragment_offset = 0x0123;
    packet.checksum = 0xffff;
    let bytes = packet.to_bytes();
    assert_eq!(bytes[0], 0x45);
    assert_eq!(&bytes[6..8], &[0xa1, 0x23]);
    assert!(verify_checksum(&bytes[..20]));
    let back = Ipv4Packet::parse(&bytes).unwrap();
    assert_eq!(back.flags, 0b101);
    assert_eq!(back.fragment_offset, 0x0123);
    assert_ne!(back.checksum, 0xffff);
}

#[test]
fn ipv4_round_trip() {
    let packet = Ipv4Packet::build(
        Ipv4Addr::new(172, 16, 254, 3),
        Ipv4Addr::new(8, 8, 4, 4),
        17,
        200,
        vec![5, 6, 7],
    );
    let back = Ipv4Packet::parse(&packet.to_bytes()).unwrap();
    assert_eq!(back.version, packet.version);
    assert_eq!(back.ihl, packet.ihl);
    assert_eq!(back.tos, packet.tos);
    assert_eq!(back.total_length, packet.total_length);
    assert_eq!(back.identification, packet.identification);
    assert_eq!(back.flags, packet.flags);
    assert_eq!(back.fragment_offset, packet.fragment_offset);
    assert_eq!(back.ttl, packet.ttl);
    assert_eq!(back.protocol, packet.protocol);
    assert_eq!(back.checksum, packet.checksum);
    assert_eq!(back.src_addr, packet.src_addr);
    assert_eq!(back.dst_addr, packet.dst_addr);
    assert_eq!(back.payload, packet.payload);
}

#[test]
fn ipv4_build_takes_the_longest_payload() {
    let packet = Ipv4Packet::build(
        Ipv4Addr::new(10, 0, 0, 1),
        Ipv4Addr::new(10, 0, 0, 2),
        17,
        64,
        vec![0u8; 65515],
    );
    assert_eq!(packet.total_length, 65535);
    assert_eq!(packet.to_bytes().len(), 65535);
}
