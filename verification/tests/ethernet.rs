use rust_tcpip::error::StackError;
use rust_tcpip::ethernet::{EtherType, EthernetFrame, FramePayload};

#[test]
fn test_parse_ethernet_frame() {
    let mut data = vec![
        0xff, 0xff, 0xff, 0xff, 0xff, 0xff, // destination MAC
        0x00, 0x11, 0x22, 0x33, 0x44, 0x55, // source MAC
        0x08, 0x00, // EtherType (IPv4)
    ];
    data.extend(b"payload");

    let frame = EthernetFrame::parse(&data).unwrap();

    assert_eq!(frame.ether_type, 0x0800);
    assert_eq!(frame.payload, b"payload");
}

#[test]
fn parse_ethernet_reads_both_addresses() {
    let data = [1, 2, 3, 4, 5, 6, 7, 8, 9, 10, 11, 12, 0x08, 0x06];
    let frame = EthernetFrame::parse(&data).unwrap();
    assert_eq!(frame.dst_mac, [1, 2, 3, 4, 5, 6]);
    assert_eq!(frame.src_mac, [7, 8, 9, 10, 11, 12]);
    assert_eq!(frame.ether_type, 0x0806);
    assert!(frame.payload.is_empty());
}

#[test]
fn parse_ethernet_rejects_short_frames() {
    match EthernetFrame::parse(&[0u8; 13]) {
        Err(StackError::InvalidPacket(msg)) => assert_eq!(msg, "Ethernet frame too short"),
        other => panic!("unexpected {:?}", other),
    }
    assert!(EthernetFrame::parse(&[]).is_err());
    assert!(EthernetFrame::parse(&[0u8; 14]).is_ok());
}

#[test]
fn ether_type_codes() {
    assert_eq!(EtherType::from_u16(0x0800), Some(EtherType::IPv4));
    assert_eq!(EtherType::from_u16(0x0806), Some(EtherType::ARP));
    assert_eq!(EtherType::from_u16(0x86DD), Some(EtherType::IPv6));
    assert_eq!(EtherType::from_u16(0x1234), None);
    assert_eq!(EtherType::to_u16(EtherType::IPv4), 0x0800);
    assert_eq!(EtherType::to_u16(EtherType::ARP), 0x0806);
    assert_eq!(EtherType::to_u16(EtherType::IPv6), 0x86DD);
}

#[test]
fn classify_by_ether_type() {
    let arp = EthernetFrame::build([1; 6], [2; 6], 0x0806, vec![1, 2, 3]);
    assert!(matches!(arp.classify_payload(), FramePayload::Arp(p) if p == vec![1, 2, 3]));
    assert_eq!(arp.get_ether_type(), Some(EtherType::ARP));
    let ip = EthernetFrame::build([1; 6], [2; 6], 0x0800, vec![4, 5]);
    assert!(matches!(ip.classify_payload(), FramePayload::Ipv4(p) if p == vec![4, 5]));
    let ip6 = EthernetFrame::build([1; 6], [2; 6], 0x86DD, vec![6]);
    assert!(matches!(ip6.classify_payload(), FramePayload::Ipv6(p) if p == vec![6]));
    for other in [0x0000u16, 0x0801, 0x0805, 0x8100, 0xFFFF] {
        let frame = EthernetFrame::build([1; 6], [2; 6], other, vec![7]);
        assert!(matches!(frame.classify_payload(), FramePayload::Unknown));
        assert_eq!(frame.get_ether_type(), None);
    }
}

#[test]
fn ethernet_round_trip() {
    let frame = EthernetFrame::build([0xAA; 6], [0xBB; 6], 0x0806, vec![9, 8, 7]);
    let bytes = frame.to_bytes();
    assert_eq!(
        bytes,
        vec![0xAA, 0xAA, 0xAA, 0xAA, 0xAA, 0xAA, 0xBB, 0xBB, 0xBB, 0xBB, 0xBB, 0xBB, 0x08, 0x06, 9, 8, 7]
    );
    let back = EthernetFrame::parse(&bytes).unwrap();
    assert_eq!(back.dst_mac, frame.dst_mac);
    assert_eq!(back.src_mac, frame.src_mac);
    assert_eq!(back.ether_type, frame.ether_type);
    assert_eq!(back.payload, frame.payload);
    assert_eq!(back.to_bytes(), bytes);
}

#[test]
fn ethernet_build_checks_no_length() {
    let frame = EthernetFrame::build([0; 6], [0; 6], 0x0800, vec![0u8; 5000]);
    assert_eq!(frame.to_bytes().len(), 5014);
}
