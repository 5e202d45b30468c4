use rust_tcpip::checksum::verify_checksum;
use rust_tcpip::error::StackError;
use rust_tcpip::icmp::{IcmpPacket, IcmpType};

fn echo_request() -> Vec<u8> {
    vec![8, 0, 0x21, 0x68, 0x12, 0x34, 0x00, 0x01, b'a', b'b', b'c']
}

#[test]
fn icmp_type_codes() {
    assert_eq!(IcmpType::from_u8(0), Some(IcmpType::EchoReply));
    assert_eq!(IcmpType::from_u8(3), Some(IcmpType::DestinationUnreachable));
    assert_eq!(IcmpType::from_u8(8), Some(IcmpType::EchoRequest));
    assert_eq!(IcmpType::from_u8(11), Some(IcmpType::TimeExceeded));
    assert_eq!(IcmpType::from_u8(1), None);
    assert_eq!(IcmpType::from_u8(255), None);
    assert_eq!(IcmpType::to_u8(IcmpType::EchoReply), 0);
    assert_eq!(IcmpType::to_u8(IcmpType::DestinationUnreachable), 3);
    assert_eq!(IcmpType::to_u8(IcmpType::EchoRequest), 8);
    assert_eq!(IcmpType::to_u8(IcmpType::TimeExceeded), 11);
}

#[test]
fn icmp_parse_reads_every_field() {
    let packet = IcmpPacket::parse(&echo_request()).unwrap();
    assert_eq!(packet.icmp_type, 8);
    assert_eq!(packet.code, 0);
    assert_eq!(packet.checksum, 0x2168);
    assert_eq!(packet.identifier, 0x1234);
    assert_eq!(packet.sequence, 1);
    assert_eq!(packet.payload, b"abc");
}

#[test]
fn icmp_parse_rejects_short_packets() {
    match IcmpPacket::parse(&echo_request()[..7]) {
        Err(StackError::InvalidPacket(msg)) => assert_eq!(msg, "Icmp packet too short"),
        other => panic!("unexpected {:?}", other),
    }
    assert!(IcmpPacket::parse(&echo_request()[..8]).unwrap().payload.is_empty());
}

#[test]
fn icmp_echo_reply_carries_back_what_was_sent() {
    let request = IcmpPacket::parse(&echo_request()).unwrap();
    let reply = IcmpPacket::build_reply(&request);
    assert_eq!(reply.icmp_type, 0);
    assert_eq!(reply.code, 0);
    assert_eq!(reply.identifier, 0x1234);
    assert_eq!(reply.sequence, 0x0001);
    assert_eq!(reply.payload, b"abc");
    let bytes = reply.to_bytes();
    assert_eq!(bytes, vec![0, 0, 41, 104, 18, 52, 0, 1, 97, 98, 99]);
    assert_eq!(bytes[0], 0);
}

#[test]
fn icmp_to_bytes_computes_the_checksum_itself() {
    let mut packet = IcmpPacket::parse(&echo_request()).unwrap();
    packet.checksum = 0xbeef;
    let bytes = packet.to_bytes();
    assert_eq!(bytes, echo_request());
    assert!(verify_checksum(&bytes));
    assert_eq!(IcmpPacket::calculate_checksum(&bytes), 0);
}

#[test]
fn icmp_round_trip() {
    let request = IcmpPacket::parse(&echo_request()).unwrap();
    let back = IcmpPacket::parse(&request.to_bytes()).unwrap();
    assert_eq!(back.icmp_type, request.icmp_type);
    assert_eq!(back.code, request.code);
    assert_eq!(back.checksum, request.checksum);
    assert_eq!(back.identifier, request.identifier);
    assert_eq!(back.sequence, request.sequence);
    assert_eq!(back.payload, request.payload);
}
