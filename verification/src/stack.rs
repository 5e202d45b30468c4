//! The path of one received frame through the stack: what, if anything,
//! is to be done in answer to it. Reading frames from a device and
//! sending the answers is left to the caller.

use vstd::prelude::*;
use crate::addr::{mac_of_bytes, Ipv4Addr, MacAddr};
use crate::arp::{ArpModule, ArpModuleView, ArpPacket, ArpPacketView};
use crate::error::{Result, StackError};
use crate::ethernet::{EtherType, EthernetFrame, EthernetFrameView, FramePayload};
use crate::icmp::{IcmpPacket, IcmpPacketView, IcmpType, ICMP_PROTOCOL};
use crate::ip::{Ipv4Packet, Ipv4PacketView};
use crate::udp::{UdpDatagram, UdpDatagramView, UDP_PROTOCOL};

verus! {

/// The time to live that echo replies are sent with.
pub const ECHO_REPLY_TTL: u8 = 0;

/// A UDP payload on its way to the layer above, with the addresses and
/// ports it travelled between.
#[derive(Debug)]
pub struct UdpDelivery {
    pub src_addr: Ipv4Addr,
    pub src_port: u16,
    pub dst_addr: Ipv4Addr,
    pub dst_port: u16,
    pub payload: Vec<u8>,
}

/// What is to be done in answer to a frame.
#[derive(Debug)]
pub enum FrameAction {
    /// Send these bytes as one frame.
    Send(Vec<u8>),
    /// Hand this datagram to the layer above.
    Deliver(UdpDelivery),
    /// Drop the frame.
    Nothing,
}

/// The mathematical content of a [`FrameAction`].
pub enum FrameActionView {
    Send(Seq<u8>),
    Deliver { src_addr: Ipv4Addr, src_port: u16, dst_addr: Ipv4Addr, dst_port: u16, payload: Seq<u8> },
    Nothing,
}

impl View for FrameAction {
    type V = FrameActionView;

    open spec fn view(&self) -> FrameActionView {
        match self {
            FrameAction::Send(bytes) => FrameActionView::Send(bytes@),
            FrameAction::Deliver(d) => FrameActionView::Deliver {
                src_addr: d.src_addr,
                src_port: d.src_port,
                dst_addr: d.dst_addr,
                dst_port: d.dst_port,
                payload: d.payload@,
            },
            FrameAction::Nothing => FrameActionView::Nothing,
        }
    }
}

/// The frame that answers the echo request `icmp`, which came in the
/// datagram `ip` inside `frame`: the echo reply, in a datagram back to
/// the sender, in a frame back to the sender.
pub open spec fn echo_frame(frame: EthernetFrameView, ip: Ipv4PacketView, icmp: IcmpPacketView) -> Seq<u8> {
    let datagram = Ipv4PacketView::build(
        ip.dst_addr,
        ip.src_addr,
        ip.protocol,
        ECHO_REPLY_TTL,
        icmp.reply().to_bytes(),
    );
    (EthernetFrameView {
        dst_mac: frame.src_mac,
        src_mac: frame.dst_mac,
        ether_type: 0x0800,
        payload: datagram.to_bytes(),
    }).to_bytes()
}

/// The outcome of an ICMP message `data` that came in the datagram `ip`
/// inside `frame`: an echo request is answered, every other message is
/// dropped. A message too short to parse, or an echo too long to send
/// back in one datagram, is an error, given by its text.
pub open spec fn icmp_outcome(frame: EthernetFrameView, ip: Ipv4PacketView, data: Seq<u8>) -> std::result::Result<FrameActionView, Seq<char>> {
    match IcmpPacketView::parse(data) {
        None => Err("Icmp packet too short"@),
        Some(icmp) => if icmp.icmp_type != 8 {
            Ok(FrameActionView::Nothing)
        } else if 20 + icmp.reply().to_bytes().len() > 0xFFFF {
            Err("Icmp echo too long"@)
        } else {
            Ok(FrameActionView::Send(echo_frame(frame, ip, icmp)))
        },
    }
}

/// The outcome of a UDP datagram `data` that came in the datagram `ip`:
/// its payload goes to the layer above.
pub open spec fn udp_outcome(ip: Ipv4PacketView, data: Seq<u8>) -> std::result::Result<FrameActionView, Seq<char>> {
    match UdpDatagramView::parse(data) {
        None => Err("Udp datagram too short"@),
        Some(udp) => Ok(
            FrameActionView::Deliver {
                src_addr: ip.src_addr,
                src_port: udp.src_port,
                dst_addr: ip.dst_addr,
                dst_port: udp.dst_port,
                payload: udp.payload,
            },
        ),
    }
}

/// The outcome of a frame that carries IPv4: the datagram is handed on
/// by protocol number, 1 to ICMP and 17 to UDP; every other protocol is
/// dropped.
pub open spec fn ipv4_outcome(frame: EthernetFrameView) -> std::result::Result<FrameActionView, Seq<char>> {
    match Ipv4PacketView::parse(frame.payload) {
        None => Err(
            if frame.payload.len() < 20 {
                "Ip packet too short"@
            } else {
                "Ip header too short"@
            },
        ),
        Some(ip) => if ip.protocol == 1 {
            icmp_outcome(frame, ip, ip.payload)
        } else if ip.protocol == 17 {
            udp_outcome(ip, ip.payload)
        } else {
            Ok(FrameActionView::Nothing)
        },
    }
}

/// The outcome of a frame that carries ARP: a request for the local
/// address is answered with a reply framed back to its sender, every
/// other message with nothing.
pub open spec fn arp_outcome(module: ArpModuleView, frame: EthernetFrameView) -> std::result::Result<FrameActionView, Seq<char>> {
    match ArpPacketView::parse(frame.payload) {
        None => Err("ARP packet too short"@),
        Some(arp) => match module.response(arp) {
            Some(reply) => Ok(
                FrameActionView::Send(
                    (EthernetFrameView {
                        dst_mac: arp.sender_mac,
                        src_mac: module.our_mac@,
                        ether_type: 0x0806,
                        payload: reply,
                    }).to_bytes(),
                ),
            ),
            None => Ok(FrameActionView::Nothing),
        },
    }
}

/// The outcome of a received frame: it is handed on by EtherType,
/// `0x0806` to ARP and `0x0800` to IPv4; every other frame is dropped.
pub open spec fn frame_outcome(module: ArpModuleView, data: Seq<u8>) -> std::result::Result<FrameActionView, Seq<char>> {
    match EthernetFrameView::parse(data) {
        None => Err("Ethernet frame too short"@),
        Some(frame) => if frame.ether_type == 0x0806 {
            arp_outcome(module, frame)
        } else if frame.ether_type == 0x0800 {
            ipv4_outcome(frame)
        } else {
            Ok(FrameActionView::Nothing)
        },
    }
}

/// The neighbour that a received frame teaches: the sender of every ARP
/// message that parses, whatever it asks and whoever it is for.
pub open spec fn frame_sender(data: Seq<u8>) -> Option<(Ipv4Addr, MacAddr)> {
    match EthernetFrameView::parse(data) {
        Some(frame) => if frame.ether_type == 0x0806 && frame.payload.len() >= 28 {
            Some((Ipv4Addr::at(frame.payload, 14), mac_of_bytes(frame.payload, 8)))
        } else {
            None
        },
        None => None,
    }
}

/// Whether the result of handling a frame is the outcome `expected`.
pub open spec fn is_outcome(
    r: Result<FrameAction>,
    expected: std::result::Result<FrameActionView, Seq<char>>,
) -> bool {
    match r {
        Ok(action) => expected == std::result::Result::<FrameActionView, Seq<char>>::Ok(action@),
        Err(e) => e matches StackError::InvalidPacket(msg) && expected == std::result::Result::<
            FrameActionView,
            Seq<char>,
        >::Err(msg@),
    }
}

/// Handles an ICMP message that came in the datagram `ip` inside
/// `frame`.
pub fn handle_icmp(frame: &EthernetFrame, ip: &Ipv4Packet) -> (r: Result<FrameAction>)
    ensures
        is_outcome(r, icmp_outcome(frame@, ip@, ip@.payload)),
{
    let icmp = match IcmpPacket::parse(ip.payload.as_slice()) {
        Ok(icmp) => icmp,
        Err(e) => { return Err(e); },
    };
    match IcmpType::from_u8(icmp.icmp_type) {
        Some(IcmpType::EchoRequest) => {},
        _ => { return Ok(FrameAction::Nothing); },
    }
    let icmp_bytes = IcmpPacket::build_reply(&icmp).to_bytes();
    if icmp_bytes.len() > 0xFFFF - 20 {
        return Err(StackError::InvalidPacket("Icmp echo too long".to_string()));
    }
    let ip_reply = Ipv4Packet::build(ip.dst_addr, ip.src_addr, ip.protocol, ECHO_REPLY_TTL, icmp_bytes);
    let eth_frame = EthernetFrame::build(
        frame.src_mac,
        frame.dst_mac,
        EtherType::to_u16(EtherType::IPv4),
        ip_reply.to_bytes(),
    );
    Ok(FrameAction::Send(eth_frame.to_bytes()))
}

/// Handles a frame that carries IPv4.
pub fn handle_ipv4(frame: &EthernetFrame) -> (r: Result<FrameAction>)
    ensures
        is_outcome(r, ipv4_outcome(frame@)),
{
    let ip = match Ipv4Packet::parse(frame.payload.as_slice()) {
        Ok(ip) => ip,
        Err(e) => { return Err(e); },
    };
    if ip.protocol == ICMP_PROTOCOL {
        handle_icmp(frame, &ip)
    } else if ip.protocol == UDP_PROTOCOL {
        match UdpDatagram::parse(ip.payload.as_slice()) {
            Ok(udp) => Ok(
                FrameAction::Deliver(
                    UdpDelivery {
                        src_addr: ip.src_addr,
                        src_port: udp.src_port,
                        dst_addr: ip.dst_addr,
                        dst_port: udp.dst_port,
                        payload: udp.payload,
                    },
                ),
            ),
            Err(e) => Err(e),
        }
    } else {
        Ok(FrameAction::Nothing)
    }
}

/// Handles a frame that carries ARP: the sender is learned, and a
/// request for the local address is answered.
pub fn handle_arp(module: &mut ArpModule, frame: &EthernetFrame) -> (r: Result<FrameAction>)
    ensures
        is_outcome(r, arp_outcome(old(module)@, frame@)),
        frame@.payload.len() < 28 ==> final(module)@ == old(module)@,
        frame@.payload.len() >= 28 ==> exists|now: u128|
            final(module)@ == old(module)@.learn_at(
                Ipv4Addr::at(frame@.payload, 14),
                mac_of_bytes(frame@.payload, 8),
                now,
            ),
{
    let arp = match ArpPacket::parse(frame.payload.as_slice()) {
        Ok(arp) => arp,
        Err(e) => { return Err(e); },
    };
    let our_mac = module.our_mac();
    match module.handle_packet(&arp) {
        Some(reply) => {
            let response = EthernetFrame::build(
                arp.sender_mac,
                our_mac,
                EtherType::to_u16(EtherType::ARP),
                reply,
            );
            Ok(FrameAction::Send(response.to_bytes()))
        },
        None => Ok(FrameAction::Nothing),
    }
}

/// Runs one received frame through the stack and says what is to be
/// done in answer. Only a frame that carries an ARP message changes the
/// module: its sender is learned.
pub fn handle_frame(module: &mut ArpModule, data: &[u8]) -> (r: Result<FrameAction>)
    ensures
        is_outcome(r, frame_outcome(old(module)@, data@)),
        frame_sender(data@) is None ==> final(module)@ == old(module)@,
        frame_sender(data@) matches Some(sender) ==> exists|now: u128|
            final(module)@ == old(module)@.learn_at(sender.0, sender.1, now),
{
    let frame = match EthernetFrame::parse(data) {
        Ok(frame) => frame,
        Err(e) => { return Err(e); },
    };
    match frame.get_ether_type() {
        Some(EtherType::ARP) => {
            let r = handle_arp(module, &frame);
            proof {
                if frame@.payload.len() >= 28 {
                    let sender = frame_sender(data@).unwrap();
                    let now = choose|now: u128|
                        module@ == old(module)@.learn_at(
                            Ipv4Addr::at(frame@.payload, 14),
                            mac_of_bytes(frame@.payload, 8),
                            now,
                        );
                    assert(module@ == old(module)@.learn_at(sender.0, sender.1, now));
                }
            }
            r
        },
        Some(EtherType::IPv4) => handle_ipv4(&frame),
        _ => Ok(FrameAction::Nothing),
    }
}

} // verus!
