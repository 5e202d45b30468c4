//! UDP: the 8-byte datagram header and the pseudo-header checksum.

use vstd::prelude::*;
use crate::addr::Ipv4Addr;
use crate::bytes::{be16, be16_at, be16_bytes, push_all, push_be16, tail_from};
use crate::checksum::{checksum, checksum_ok, internet_checksum, with_checksum_at, with_field};
use crate::error::{Result, StackError};

verus! {

/// The length of the UDP header.
pub const UDP_DATA_GRAM_MIN_SIZE: usize = 8;

/// The IPv4 protocol number of UDP.
pub const UDP_PROTOCOL: u8 = 17;

/// A UDP datagram: header fields and payload.
#[derive(Debug)]
pub struct UdpDatagram {
    pub src_port: u16,
    pub dst_port: u16,
    pub length: u16,
    pub checksum: u16,
    pub payload: Vec<u8>,
}

/// The mathematical content of a [`UdpDatagram`].
pub struct UdpDatagramView {
    pub src_port: u16,
    pub dst_port: u16,
    pub length: u16,
    pub checksum: u16,
    pub payload: Seq<u8>,
}

impl View for UdpDatagram {
    type V = UdpDatagramView;

    open spec fn view(&self) -> UdpDatagramView {
        UdpDatagramView {
            src_port: self.src_port,
            dst_port: self.dst_port,
            length: self.length,
            checksum: self.checksum,
            payload: self.payload@,
        }
    }
}

/// The length field of a datagram that carries `payload_len` bytes: header
/// plus payload, kept to the 16 bits the field has.
pub open spec fn udp_length(payload_len: nat) -> u16 {
    ((8 + payload_len) % 0x1_0000) as u16
}

/// The pseudo-header that goes before a datagram when its checksum is
/// taken: source, destination, a zero byte, the protocol number and the
/// UDP length. It is never sent.
pub open spec fn pseudo_header(src_addr: Ipv4Addr, dst_addr: Ipv4Addr, length: u16) -> Seq<u8> {
    src_addr.octets_spec() + dst_addr.octets_spec() + seq![0u8, 17u8] + be16_bytes(length)
}

impl UdpDatagramView {
    /// The wire form: source port, destination port, length, checksum,
    /// payload.
    pub open spec fn to_bytes(self) -> Seq<u8> {
        be16_bytes(self.src_port) + be16_bytes(self.dst_port) + be16_bytes(self.length)
            + be16_bytes(self.checksum) + self.payload
    }

    /// The datagram that `data` spells, if `data` holds a whole header.
    /// The length field is taken as it is.
    pub open spec fn parse(data: Seq<u8>) -> Option<UdpDatagramView> {
        if data.len() < 8 {
            None
        } else {
            Some(
                UdpDatagramView {
                    src_port: be16_at(data, 0),
                    dst_port: be16_at(data, 2),
                    length: be16_at(data, 4),
                    checksum: be16_at(data, 6),
                    payload: data.skip(8),
                },
            )
        }
    }

    /// The same datagram with another value in its checksum field.
    pub open spec fn with_checksum(self, checksum: u16) -> UdpDatagramView {
        UdpDatagramView { checksum, ..self }
    }

    /// The buffer the checksum is taken over: pseudo-header, then the
    /// datagram with a zero checksum field.
    pub open spec fn checksum_input(self, src_addr: Ipv4Addr, dst_addr: Ipv4Addr) -> Seq<u8> {
        pseudo_header(src_addr, dst_addr, self.length) + self.with_checksum(0).to_bytes()
    }

    /// The checksum of the datagram when it travels from `src_addr` to
    /// `dst_addr`.
    pub open spec fn udp_checksum(self, src_addr: Ipv4Addr, dst_addr: Ipv4Addr) -> u16 {
        internet_checksum(self.checksum_input(src_addr, dst_addr))
    }

    /// The datagram that carries `payload` between the two ports, with
    /// its length and checksum filled in.
    pub open spec fn build(
        src_port: u16,
        dst_port: u16,
        payload: Seq<u8>,
        src_addr: Ipv4Addr,
        dst_addr: Ipv4Addr,
    ) -> UdpDatagramView {
        let blank = UdpDatagramView {
            src_port,
            dst_port,
            length: udp_length(payload.len()),
            checksum: 0,
            payload,
        };
        blank.with_checksum(blank.udp_checksum(src_addr, dst_addr))
    }

    /// The answer to `self` that sends its payload back: the ports
    /// change places.
    pub open spec fn echo(self, src_addr: Ipv4Addr, dst_addr: Ipv4Addr) -> UdpDatagramView {
        Self::build(self.dst_port, self.src_port, self.payload, src_addr, dst_addr)
    }

    /// Parsing the wire form of a datagram gives the datagram back, field
    /// for field.
    pub proof fn lemma_parse_to_bytes(self)
        ensures
            Self::parse(self.to_bytes()) == Some(self),
    {
        let back = Self::parse(self.to_bytes()).unwrap();
        crate::bytes::lemma_be16_of_bytes(self.src_port);
        crate::bytes::lemma_be16_of_bytes(self.dst_port);
        crate::bytes::lemma_be16_of_bytes(self.length);
        crate::bytes::lemma_be16_of_bytes(self.checksum);
        assert(back.payload =~= self.payload);
    }

    /// Serializing a parsed datagram gives the parsed bytes back.
    pub proof fn lemma_to_bytes_parse(data: Seq<u8>)
        requires
            data.len() >= 8,
        ensures
            Self::parse(data).unwrap().to_bytes() == data,
    {
        crate::bytes::lemma_bytes_of_be16(data[0], data[1]);
        crate::bytes::lemma_bytes_of_be16(data[2], data[3]);
        crate::bytes::lemma_bytes_of_be16(data[4], data[5]);
        crate::bytes::lemma_bytes_of_be16(data[6], data[7]);
        assert(Self::parse(data).unwrap().to_bytes() =~= data);
    }

    /// A datagram that carries its own checksum passes validation: the
    /// pseudo-header followed by its wire form sums to all ones.
    pub proof fn lemma_checksum_validates(self, src_addr: Ipv4Addr, dst_addr: Ipv4Addr)
        requires
            self.checksum == self.udp_checksum(src_addr, dst_addr),
        ensures
            checksum_ok(pseudo_header(src_addr, dst_addr, self.length) + self.to_bytes()),
    {
        let input = self.checksum_input(src_addr, dst_addr);
        let sent = pseudo_header(src_addr, dst_addr, self.length) + self.to_bytes();
        assert(with_field(input, 18, 0) =~= input);
        assert(with_checksum_at(input, 18) =~= sent);
        crate::checksum::lemma_embedded_checksum_sums_to_ones(input, 18);
    }
}

impl UdpDatagram {
    /// Parses a datagram. Fails exactly when `data` is shorter than the
    /// 8-byte header; the length field is not compared with `data`.
    pub fn parse(data: &[u8]) -> (r: Result<Self>)
        ensures
            match r {
                Ok(datagram) => UdpDatagramView::parse(data@) == Some(datagram@),
                Err(e) => {
                    &&& data@.len() < 8
                    &&& e matches StackError::InvalidPacket(msg)
                    &&& msg@ == "Udp datagram too short"@
                },
            },
    {
        if data.len() < UDP_DATA_GRAM_MIN_SIZE {
            return Err(StackError::InvalidPacket("Udp datagram too short".to_string()));
        }
        let src_port = be16(data[0], data[1]);
        let dst_port = be16(data[2], data[3]);
        let length = be16(data[4], data[5]);
        let checksum = be16(data[6], data[7]);
        let payload = tail_from(data, 8);
        Ok(Self { src_port, dst_port, length, checksum, payload })
    }

    /// Builds the datagram that carries `payload` from `src_addr`,
    /// `src_port` to `dst_addr`, `dst_port`: the length is header plus
    /// payload, and the checksum covers the pseudo-header too.
    pub fn build(
        src_port: u16,
        dst_port: u16,
        payload: Vec<u8>,
        src_addr: Ipv4Addr,
        dst_addr: Ipv4Addr,
    ) -> (r: Self)
        ensures
            r@ == UdpDatagramView::build(src_port, dst_port, payload@, src_addr, dst_addr),
            payload@.len() + 8 <= 0xFFFF ==> r.length == 8 + payload@.len(),
            checksum_ok(pseudo_header(src_addr, dst_addr, r.length) + r@.to_bytes()),
    {
        let length = Self::length_for(payload.len());
        let mut datagram = Self { src_port, dst_port, length, checksum: 0, payload };
        let ghost blank = datagram@;
        let sum = Self::calculate_udp_checksum(&datagram, src_addr, dst_addr);
        datagram.checksum = sum;
        proof {
            assert(datagram@.with_checksum(0) == blank.with_checksum(0));
            datagram@.lemma_checksum_validates(src_addr, dst_addr);
        }
        datagram
    }

    /// The length field of a datagram with `payload_len` bytes of payload:
    /// header plus payload, kept to 16 bits.
    pub fn length_for(payload_len: usize) -> (length: u16)
        ensures
            length == udp_length(payload_len as nat),
    {
        let low: usize = payload_len % 0x1_0000;
        proof {
            let q = payload_len as int / 0x1_0000;
            assert(8 + payload_len == 0x1_0000 * q + (low + 8));
            vstd::arithmetic::div_mod::lemma_mod_multiples_vanish(q, low + 8, 0x1_0000);
        }
        ((low + 8) % 0x1_0000) as u16
    }

    /// The wire form of the datagram; parsing it gives the datagram back.
    pub fn to_bytes(&self) -> (bytes: Vec<u8>)
        ensures
            bytes@ == self@.to_bytes(),
            UdpDatagramView::parse(bytes@) == Some(self@),
    {
        let mut bytes = Vec::new();
        push_be16(&mut bytes, self.src_port);
        push_be16(&mut bytes, self.dst_port);
        push_be16(&mut bytes, self.length);
        push_be16(&mut bytes, self.checksum);
        push_all(&mut bytes, self.payload.as_slice());
        proof {
            self@.lemma_parse_to_bytes();
        }
        bytes
    }

    /// Builds the datagram that sends the payload of `request` back: the
    /// ports change places, length and checksum are computed anew.
    pub fn build_echo(request: &UdpDatagram, src_addr: Ipv4Addr, dst_addr: Ipv4Addr) -> (r: Self)
        ensures
            r@ == request@.echo(src_addr, dst_addr),
    {
        Self::build(request.dst_port, request.src_port, request.payload.clone(), src_addr, dst_addr)
    }

    /// The checksum of `datagram` on its way from `src_addr` to
    /// `dst_addr`, taken over the pseudo-header, the header with a zero
    /// checksum field, and the payload.
    pub fn calculate_udp_checksum(
        datagram: &UdpDatagram,
        src_addr: Ipv4Addr,
        dst_addr: Ipv4Addr,
    ) -> (r: u16)
        ensures
            r == datagram@.udp_checksum(src_addr, dst_addr),
    {
        let mut data = Vec::new();
        push_all(&mut data, src_addr.octets().as_slice());
        push_all(&mut data, dst_addr.octets().as_slice());
        data.push(0);
        data.push(UDP_PROTOCOL);
        push_be16(&mut data, datagram.length);
        push_be16(&mut data, datagram.src_port);
        push_be16(&mut data, datagram.dst_port);
        push_be16(&mut data, datagram.length);
        push_be16(&mut data, 0);
        push_all(&mut data, datagram.payload.as_slice());
        assert(data@ =~= datagram@.checksum_input(src_addr, dst_addr));
        Self::calculate_checksum(data.as_slice())
    }

    /// The Internet checksum of `data`.
    pub fn calculate_checksum(data: &[u8]) -> (r: u16)
        ensures
            r == internet_checksum(data@),
    {
        checksum(data)
    }
}

} // verus!
