use rust_tcpip::addr::Ipv4Addr;
use rust_tcpip::checksum::verify_checksum;
use rust_tcpip::error::StackError;
use rust_tcpip::udp::UdpDatagram;

#[test]
fn udp_parse_reads_every_field() {
    let bytes = [0x04, 0xd2, 0x16, 0x2e, 0x00, 0x63, 0xab, 0xcd, b'h', b'i'];
    let datagram = UdpDatagram::parse(&bytes).unwrap();
    assert_eq!(datagram.src_port, 1234);
    assert_eq!(datagram.dst_port, 5678);
    assert_eq!(datagram.length, 99);
    assert_eq!(datagram.checksum, 0xabcd);
    assert_eq!(datagram.payload, b"hi");
    assert_eq!(datagram.to_bytes(), bytes);
}

#[test]
fn udp_parse_rejects_short_datagrams() {
    match UdpDatagram::parse(&[0u8; 7]) {
        Err(StackError::InvalidPacket(msg)) => assert_eq!(msg, "Udp datagram too short"),
        other => panic!("unexpected {:?}", other),
    }
    assert!(UdpDatagram::parse(&[0u8; 8]).unwrap().payload.is_empty());
}

#[test]
fn udp_build_computes_length_and_checksum() {
    let src = Ipv4Addr::new(10, 0, 0, 1);
    let dst = Ipv4Addr::new(10, 0, 0, 2);
    let datagram = UdpDatagram::build(1234, 5678, b"ping".to_vec(), src, dst);
    assert_eq!(datagram.src_port, 1234);
    assert_eq!(datagram.dst_port, 5678);
    assert_eq!(datagram.length, 12);
    assert_eq!(datagram.checksum, 0xf202);
    assert_eq!(datagram.payload, b"ping");
    assert_eq!(UdpDatagram::calculate_udp_checksum(&datagram, src, dst), 0xf202);
    assert_eq!(
        datagram.to_bytes(),
        vec![0x04, 0xd2, 0x16, 0x2e, 0x00, 0x0c, 0xf2, 0x02, b'p', b'i', b'n', b'g']
    );
}

#[test]
fn udp_checksum_of_an_odd_payload() {
    let datagram = UdpDatagram::build(
        53,
        53,
        b"abc".to_vec(),
        Ipv4Addr::new(192, 168, 1, 1),
        Ipv4Addr::new(192, 168, 1, 2),
    );
    assert_eq!(datagram.length, 11);
    assert_eq!(datagram.checksum, 0xb7b7);
}

#[test]
fn udp_checksum_covers_the_pseudo_header() {
    let src = Ipv4Addr::new(10, 0, 0, 1);
    let dst = Ipv4Addr::new(10, 0, 0, 2);
    let datagram = UdpDatagram::build(1234, 5678, b"ping".to_vec(), src, dst);
    let mut sent = vec![10, 0, 0, 1, 10, 0, 0, 2, 0, 17, 0, 12];
    sent.extend(datagram.to_bytes());
    assert!(verify_checksum(&sent));
    let elsewhere = UdpDatagram::build(1234, 5678, b"ping".to_vec(), src, Ipv4Addr::new(10, 0, 0, 3));
    assert_ne!(elsewhere.checksum, datagram.checksum);
    assert_eq!(UdpDatagram::calculate_checksum(&sent), 0);
}

#[test]
fn udp_echo_swaps_the_ports() {
    let request = UdpDatagram::parse(&[0x04, 0xd2, 0x16, 0x2e, 0x00, 0x63, 0xab, 0xcd, b'p', b'i', b'n', b'g'])
        .unwrap();
    let echo = UdpDatagram::build_echo(&request, Ipv4Addr::new(10, 0, 0, 2), Ipv4Addr::new(10, 0, 0, 1));
    assert_eq!(echo.src_port, 5678);
    assert_eq!(echo.dst_port, 1234);
    assert_eq!(echo.length, 12);
    assert_eq!(echo.checksum, 0xf202);
    assert_eq!(echo.payload, b"ping");
}

#[test]
fn udp_round_trip() {
    let datagram = UdpDatagram::build(
        40000,
        8888,
        b"Test message #1".to_vec(),
        Ipv4Addr::new(192, 168, 10, 1),
        Ipv4Addr::new(192, 168, 10, 2),
    );
    let back = UdpDatagram::parse(&datagram.to_bytes()).unwrap();
    assert_eq!(back.src_port, datagram.src_port);
    assert_eq!(back.dst_port, datagram.dst_port);
    assert_eq!(back.length, datagram.length);
    assert_eq!(back.checksum, datagram.checksum);
    assert_eq!(back.payload, datagram.payload);
}

#[test]
fn udp_length_keeps_to_sixteen_bits() {
    assert_eq!(UdpDatagram::length_for(0), 8);
    assert_eq!(UdpDatagram::length_for(65527), 65535);
    assert_eq!(UdpDatagram::length_for(65528), 0);
    assert_eq!(UdpDatagram::length_for(65536), 8);
    assert_eq!(UdpDatagram::length_for(usize::MAX), 7);
}
