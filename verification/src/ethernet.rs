//! The Ethernet layer: the 14-byte link header and dispatch by EtherType.

use vstd::prelude::*;
use crate::addr::{mac_at, MacAddr};
use crate::bytes::{be16, be16_at, be16_bytes, push_all, push_be16, tail_from};
use crate::error::{Result, StackError};

verus! {

/// The length of the Ethernet header: two MAC addresses and the EtherType.
pub const ETHER_MIN_BYTES: usize = 14;

/// The protocols this stack tells apart by EtherType.
#[derive(Debug, Clone, Copy, PartialEq, Eq, Structural)]
pub enum EtherType {
    IPv4,
    ARP,
    IPv6,
}

impl EtherType {
    /// The wire code of each known protocol.
    pub open spec fn code(self) -> u16 {
        match self {
            EtherType::IPv4 => 0x0800,
            EtherType::ARP => 0x0806,
            EtherType::IPv6 => 0x86DD,
        }
    }

    /// The protocol a wire code stands for, if it is a known one.
    pub open spec fn of_code(value: u16) -> Option<EtherType> {
        if value == 0x0800 {
            Some(EtherType::IPv4)
        } else if value == 0x0806 {
            Some(EtherType::ARP)
        } else if value == 0x86DD {
            Some(EtherType::IPv6)
        } else {
            None
        }
    }

    /// Every known protocol is found again from its own code.
    pub proof fn lemma_code_round_trip(self)
        ensures
            Self::of_code(self.code()) == Some(self),
    {
    }

    /// A code that names a protocol is the code of that protocol.
    pub proof fn lemma_of_code_sound(value: u16)
        ensures
            Self::of_code(value) matches Some(t) ==> t.code() == value,
    {
    }

    /// Decodes an EtherType; an unrecognized code gives `None`.
    pub fn from_u16(value: u16) -> (r: Option<Self>)
        ensures
            r == Self::of_code(value),
    {
        match value {
            0x0800 => Some(EtherType::IPv4),
            0x0806 => Some(EtherType::ARP),
            0x86DD => Some(EtherType::IPv6),
            _ => None,
        }
    }

    /// The wire code of `ether_type`.
    pub fn to_u16(ether_type: EtherType) -> (r: u16)
        ensures
            r == ether_type.code(),
    {
        match ether_type {
            EtherType::ARP => 0x0806,
            EtherType::IPv4 => 0x0800,
            EtherType::IPv6 => 0x86DD,
        }
    }
}

/// The payload of a frame, sorted by the protocol that should read it.
#[derive(Debug)]
pub enum FramePayload {
    Arp(Vec<u8>),
    Ipv4(Vec<u8>),
    Ipv6(Vec<u8>),
    Unknown,
}

/// The mathematical content of a [`FramePayload`].
pub enum FramePayloadView {
    Arp(Seq<u8>),
    Ipv4(Seq<u8>),
    Ipv6(Seq<u8>),
    Unknown,
}

impl View for FramePayload {
    type V = FramePayloadView;

    open spec fn view(&self) -> FramePayloadView {
        match self {
            FramePayload::Arp(p) => FramePayloadView::Arp(p@),
            FramePayload::Ipv4(p) => FramePayloadView::Ipv4(p@),
            FramePayload::Ipv6(p) => FramePayloadView::Ipv6(p@),
            FramePayload::Unknown => FramePayloadView::Unknown,
        }
    }
}

/// An Ethernet frame: header fields and the bytes that follow them.
#[derive(Debug)]
pub struct EthernetFrame {
    pub dst_mac: [u8; 6],
    pub src_mac: [u8; 6],
    pub ether_type: u16,
    pub payload: Vec<u8>,
}

/// The mathematical content of an [`EthernetFrame`].
pub struct EthernetFrameView {
    pub dst_mac: Seq<u8>,
    pub src_mac: Seq<u8>,
    pub ether_type: u16,
    pub payload: Seq<u8>,
}

impl View for EthernetFrame {
    type V = EthernetFrameView;

    open spec fn view(&self) -> EthernetFrameView {
        EthernetFrameView {
            dst_mac: self.dst_mac@,
            src_mac: self.src_mac@,
            ether_type: self.ether_type,
            payload: self.payload@,
        }
    }
}

impl EthernetFrameView {
    /// Both addresses are six bytes long, as they are in every frame value.
    pub open spec fn wf(self) -> bool {
        self.dst_mac.len() == 6 && self.src_mac.len() == 6
    }

    /// The wire form: destination, source, EtherType, payload.
    pub open spec fn to_bytes(self) -> Seq<u8> {
        self.dst_mac + self.src_mac + be16_bytes(self.ether_type) + self.payload
    }

    /// The frame that `data` spells, if `data` holds a whole header.
    pub open spec fn parse(data: Seq<u8>) -> Option<EthernetFrameView> {
        if data.len() < 14 {
            None
        } else {
            Some(
                EthernetFrameView {
                    dst_mac: data.subrange(0, 6),
                    src_mac: data.subrange(6, 12),
                    ether_type: be16_at(data, 12),
                    payload: data.skip(14),
                },
            )
        }
    }

    /// The payload, tagged with the protocol the EtherType names.
    pub open spec fn classify(self) -> FramePayloadView {
        match EtherType::of_code(self.ether_type) {
            Some(EtherType::ARP) => FramePayloadView::Arp(self.payload),
            Some(EtherType::IPv4) => FramePayloadView::Ipv4(self.payload),
            Some(EtherType::IPv6) => FramePayloadView::Ipv6(self.payload),
            None => FramePayloadView::Unknown,
        }
    }

    /// Dispatch goes by EtherType alone: `0x0806` is ARP, `0x0800` is
    /// IPv4, `0x86DD` is IPv6, and every other value is unknown.
    pub proof fn lemma_classify(self)
        ensures
            self.ether_type == 0x0806 ==> self.classify() == FramePayloadView::Arp(self.payload),
            self.ether_type == 0x0800 ==> self.classify() == FramePayloadView::Ipv4(self.payload),
            self.ether_type == 0x86DD ==> self.classify() == FramePayloadView::Ipv6(self.payload),
            self.ether_type != 0x0806 && self.ether_type != 0x0800 && self.ether_type != 0x86DD
                ==> self.classify() == FramePayloadView::Unknown,
    {
    }

    /// Parsing the wire form of a frame gives the frame back.
    pub proof fn lemma_parse_to_bytes(self)
        requires
            self.wf(),
        ensures
            Self::parse(self.to_bytes()) == Some(self),
    {
        let bytes = self.to_bytes();
        let back = Self::parse(bytes).unwrap();
        crate::bytes::lemma_be16_of_bytes(self.ether_type);
        assert(back.dst_mac =~= self.dst_mac);
        assert(back.src_mac =~= self.src_mac);
        assert(back.payload =~= self.payload);
    }

    /// Serializing a parsed frame gives the parsed bytes back.
    pub proof fn lemma_to_bytes_parse(data: Seq<u8>)
        requires
            data.len() >= 14,
        ensures
            Self::parse(data).unwrap().wf(),
            Self::parse(data).unwrap().to_bytes() == data,
    {
        crate::bytes::lemma_bytes_of_be16(data[12], data[13]);
        assert(Self::parse(data).unwrap().to_bytes() =~= data);
    }
}

impl EthernetFrame {
    /// The protocol the frame's EtherType names, if it is a known one.
    pub fn get_ether_type(&self) -> (r: Option<EtherType>)
        ensures
            r == EtherType::of_code(self.ether_type),
    {
        EtherType::from_u16(self.ether_type)
    }

    /// Parses a frame. Fails exactly when `data` is shorter than the
    /// 14-byte header; everything after the header is the payload.
    pub fn parse(data: &[u8]) -> (r: Result<Self>)
        ensures
            match r {
                Ok(frame) => EthernetFrameView::parse(data@) == Some(frame@),
                Err(e) => {
                    &&& data@.len() < 14
                    &&& e matches StackError::InvalidPacket(msg)
                    &&& msg@ == "Ethernet frame too short"@
                },
            },
    {
        if data.len() < ETHER_MIN_BYTES {
            return Err(StackError::InvalidPacket("Ethernet frame too short".to_string()));
        }
        let dst_mac = mac_at(data, 0);
        let src_mac = mac_at(data, 6);
        let ether_type = be16(data[12], data[13]);
        let payload = tail_from(data, 14);
        Ok(Self { src_mac, dst_mac, ether_type, payload })
    }

    /// Sorts the payload by EtherType: `0x0806` is ARP, `0x0800` is IPv4,
    /// `0x86DD` is IPv6, and every other value is unknown.
    pub fn classify_payload(&self) -> (r: FramePayload)
        ensures
            r@ == self@.classify(),
    {
        match self.get_ether_type() {
            Some(EtherType::ARP) => FramePayload::Arp(self.payload.clone()),
            Some(EtherType::IPv4) => FramePayload::Ipv4(self.payload.clone()),
            Some(EtherType::IPv6) => FramePayload::Ipv6(self.payload.clone()),
            None => FramePayload::Unknown,
        }
    }

    /// Puts a frame together from its parts. No length is checked here.
    pub fn build(dst_mac: [u8; 6], src_mac: [u8; 6], ether_type: u16, payload: Vec<u8>) -> (r:
        Self)
        ensures
            r.dst_mac == dst_mac,
            r.src_mac == src_mac,
            r.ether_type == ether_type,
            r.payload == payload,
    {
        Self { dst_mac, src_mac, ether_type, payload }
    }

    /// The wire form of the frame; parsing it gives the frame back.
    pub fn to_bytes(&self) -> (bytes: Vec<u8>)
        ensures
            bytes@ == self@.to_bytes(),
            EthernetFrameView::parse(bytes@) == Some(self@),
    {
        let mut bytes = Vec::with_capacity(self.payload.len());
        push_all(&mut bytes, self.dst_mac.as_slice());
        push_all(&mut bytes, self.src_mac.as_slice());
        push_be16(&mut bytes, self.ether_type);
        push_all(&mut bytes, self.payload.as_slice());
        proof {
            self@.lemma_parse_to_bytes();
        }
        bytes
    }
}

} // verus!
