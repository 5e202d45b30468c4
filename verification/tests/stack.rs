use rust_tcpip::addr::Ipv4Addr;
use rust_tcpip::arp::{ArpModule, ArpPacket};
use rust_tcpip::checksum::verify_checksum;
use rust_tcpip::error::StackError;
use rust_tcpip::ethernet::EthernetFrame;
use rust_tcpip::icmp::IcmpPacket;
use rust_tcpip::ip::Ipv4Packet;
use rust_tcpip::socket::{Socket, SocketAddrV4, SocketManager, SocketType};
use rust_tcpip::stack::{handle_frame, FrameAction};
use rust_tcpip::udp::UdpDatagram;

const OUR_MAC: [u8; 6] = [0x02, 0, 0, 0, 0, 0x02];
const PEER_MAC: [u8; 6] = [0x02, 0, 0, 0, 0, 0x01];

fn our_ip() -> Ipv4Addr {
    Ipv4Addr::new(192, 168, 1, 1)
}

fn peer_ip() -> Ipv4Addr {
    Ipv4Addr::new(192, 168, 1, 10)
}

fn arp_request_frame(target: Ipv4Addr) -> Vec<u8> {
    let request = ArpPacket::build_request(PEER_MAC, peer_ip(), target);
    EthernetFrame::build([0xff; 6], PEER_MAC, 0x0806, request.to_bytes()).to_bytes()
}

fn ip_frame(protocol: u8, payload: Vec<u8>) -> Vec<u8> {
    let datagram = Ipv4Packet::build(peer_ip(), our_ip(), protocol, 64, payload);
    EthernetFrame::build(OUR_MAC, PEER_MAC, 0x0800, datagram.to_bytes()).to_bytes()
}

#[test]
fn arp_request_for_us_is_answered() {
    let mut module = ArpModule::new(our_ip(), OUR_MAC);
    let action = handle_frame(&mut module, &arp_request_frame(our_ip())).unwrap();
    let sent = match action {
        FrameAction::Send(bytes) => bytes,
        other => panic!("unexpected {:?}", other),
    };
    let frame = EthernetFrame::parse(&sent).unwrap();
    assert_eq!(frame.dst_mac, PEER_MAC);
    assert_eq!(frame.src_mac, OUR_MAC);
    assert_eq!(frame.ether_type, 0x0806);
    let reply = ArpPacket::parse(&frame.payload).unwrap();
    assert_eq!(reply.operation, 2);
    assert_eq!(reply.sender_mac, OUR_MAC);
    assert_eq!(reply.sender_ip, our_ip());
    assert_eq!(reply.target_mac, PEER_MAC);
    assert_eq!(reply.target_ip, peer_ip());
    assert_eq!(module.resolve(peer_ip()), Some(PEER_MAC));
}

#[test]
fn arp_request_for_another_is_learned_but_not_answered() {
    let mut module = ArpModule::new(our_ip(), OUR_MAC);
    let action = handle_frame(&mut module, &arp_request_frame(Ipv4Addr::new(192, 168, 1, 2))).unwrap();
    assert!(matches!(action, FrameAction::Nothing));
    assert_eq!(module.resolve(peer_ip()), Some(PEER_MAC));
}

#[test]
fn echo_request_is_answered_with_what_was_sent() {
    let mut module = ArpModule::new(our_ip(), OUR_MAC);
    let request = vec![8, 0, 0, 0, 0x12, 0x34, 0x00, 0x01, b'a', b'b', b'c'];
    let action = handle_frame(&mut module, &ip_frame(1, request)).unwrap();
    let sent = match action {
        FrameAction::Send(bytes) => bytes,
        other => panic!("unexpected {:?}", other),
    };
    let frame = EthernetFrame::parse(&sent).unwrap();
    assert_eq!(frame.dst_mac, PEER_MAC);
    assert_eq!(frame.src_mac, OUR_MAC);
    assert_eq!(frame.ether_type, 0x0800);
    let datagram = Ipv4Packet::parse(&frame.payload).unwrap();
    assert_eq!(datagram.src_addr, our_ip());
    assert_eq!(datagram.dst_addr, peer_ip());
    assert_eq!(datagram.protocol, 1);
    assert_eq!(datagram.ttl, 0);
    assert_eq!(datagram.total_length, 31);
    assert!(verify_checksum(&frame.payload[..20]));
    assert_eq!(datagram.payload[0], 0);
    let reply = IcmpPacket::parse(&datagram.payload).unwrap();
    assert_eq!(reply.icmp_type, 0);
    assert_eq!(reply.code, 0);
    assert_eq!(reply.identifier, 0x1234);
    assert_eq!(reply.sequence, 0x0001);
    assert_eq!(reply.payload, b"abc");
    assert!(verify_checksum(&datagram.payload));
    assert_eq!(module.resolve(peer_ip()), None);
}

#[test]
fn other_icmp_messages_are_dropped() {
    let mut module = ArpModule::new(our_ip(), OUR_MAC);
    let reply = vec![0, 0, 0, 0, 0x12, 0x34, 0x00, 0x01];
    assert!(matches!(handle_frame(&mut module, &ip_frame(1, reply)), Ok(FrameAction::Nothing)));
}

#[test]
fn udp_payload_is_delivered() {
    let mut module = ArpModule::new(our_ip(), OUR_MAC);
    let datagram = UdpDatagram::build(40000, 8888, b"hello".to_vec(), peer_ip(), our_ip());
    let action = handle_frame(&mut module, &ip_frame(17, datagram.to_bytes())).unwrap();
    match action {
        FrameAction::Deliver(d) => {
            assert_eq!(d.src_addr, peer_ip());
            assert_eq!(d.src_port, 40000);
            assert_eq!(d.dst_addr, our_ip());
            assert_eq!(d.dst_port, 8888);
            assert_eq!(d.payload, b"hello");
        }
        other => panic!("unexpected {:?}", other),
    }
}

#[test]
fn other_protocols_and_frames_are_dropped() {
    let mut module = ArpModule::new(our_ip(), OUR_MAC);
    assert!(matches!(handle_frame(&mut module, &ip_frame(6, vec![1, 2, 3])), Ok(FrameAction::Nothing)));
    let ipv6 = EthernetFrame::build(OUR_MAC, PEER_MAC, 0x86DD, vec![0; 40]).to_bytes();
    assert!(matches!(handle_frame(&mut module, &ipv6), Ok(FrameAction::Nothing)));
    let odd = EthernetFrame::build(OUR_MAC, PEER_MAC, 0x1234, vec![]).to_bytes();
    assert!(matches!(handle_frame(&mut module, &odd), Ok(FrameAction::Nothing)));
}

#[test]
fn malformed_frames_are_errors() {
    let mut module = ArpModule::new(our_ip(), OUR_MAC);
    let mut too_long = ip_frame(1, vec![]);
    too_long.extend(vec![8u8; 65516]);
    let cases: Vec<(Vec<u8>, &str)> = vec![
        (vec![0; 13], "Ethernet frame too short"),
        (EthernetFrame::build(OUR_MAC, PEER_MAC, 0x0806, vec![0; 27]).to_bytes(), "ARP packet too short"),
        (EthernetFrame::build(OUR_MAC, PEER_MAC, 0x0800, vec![0x45; 19]).to_bytes(), "Ip packet too short"),
        (EthernetFrame::build(OUR_MAC, PEER_MAC, 0x0800, vec![0x4f; 20]).to_bytes(), "Ip header too short"),
        (ip_frame(1, vec![8, 0, 0]), "Icmp packet too short"),
        (ip_frame(17, vec![0; 7]), "Udp datagram too short"),
        (too_long, "Icmp echo too long"),
    ];
    for (frame, text) in cases {
        match handle_frame(&mut module, &frame) {
            Err(StackError::InvalidPacket(msg)) => assert_eq!(msg, text),
            Err(other) => panic!("unexpected {:?}", other),
            Ok(_) => panic!("unexpected answer to a malformed frame"),
        }
    }
    assert_eq!(module.resolve(peer_ip()), None);
}

#[test]
fn longest_echo_is_still_answered() {
    let mut module = ArpModule::new(our_ip(), OUR_MAC);
    let action = handle_frame(&mut module, &ip_frame(1, vec![8; 65515])).unwrap();
    match action {
        FrameAction::Send(bytes) => assert_eq!(bytes.len(), 14 + 65535),
        _ => panic!("the echo was not answered"),
    }
}

#[test]
fn every_error_kind_can_be_told_apart() {
    let errors = vec![
        StackError::Io("device gone".to_string()),
        StackError::InvalidPacket("short".to_string()),
        StackError::ChecksumMismatch("bad sum".to_string()),
        StackError::ConnectionFailed("refused".to_string()),
    ];
    assert!(matches!(&errors[0], StackError::Io(m) if m == "device gone"));
    assert!(matches!(&errors[1], StackError::InvalidPacket(m) if m == "short"));
    assert!(matches!(&errors[2], StackError::ChecksumMismatch(m) if m == "bad sum"));
    assert!(matches!(&errors[3], StackError::ConnectionFailed(m) if m == "refused"));
}

#[test]
fn socket_types_hold_their_ends() {
    let local = SocketAddrV4 { ip: our_ip(), port: 8888 };
    let socket = Socket { socket_type: SocketType::Udp, local_addr: Some(local), remote_addr: None };
    assert_eq!(socket.socket_type, SocketType::Udp);
    assert_ne!(socket.socket_type, SocketType::Tcp);
    assert_eq!(socket.local_addr, Some(SocketAddrV4 { ip: our_ip(), port: 8888 }));
    assert_eq!(socket.remote_addr, None);
    let manager = SocketManager {};
    assert_eq!(format!("{:?}", manager), "SocketManager");
}

#[test]
fn errors_are_shown_with_their_text() {
    assert_eq!(StackError::Io("device gone".to_string()).to_string(), "IO error: device gone");
    assert_eq!(
        StackError::InvalidPacket("Ethernet frame too short".to_string()).to_string(),
        "Invalid packet: Ethernet frame too short"
    );
    assert_eq!(StackError::ChecksumMismatch("bad sum".to_string()).to_string(), "Checksum mismatch");
    assert_eq!(StackError::ConnectionFailed("refused".to_string()).to_string(), "Connection failed");
    match EthernetFrame::parse(&[]) {
        Err(e) => assert_eq!(e.to_string(), "Invalid packet: Ethernet frame too short"),
        Ok(_) => panic!("an empty frame was parsed"),
    }
}
