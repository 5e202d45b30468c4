//! IPv4: the datagram header, with its packed fields and its checksum.

use vstd::prelude::*;
use crate::addr::{ipv4_at, Ipv4Addr};
use crate::bytes::{be16, be16_at, be16_bytes, push_all, push_be16, tail_from};
use crate::checksum::{checksum, checksum_ok, embed_checksum, internet_checksum, with_checksum_at, with_field};
use crate::error::{Result, StackError};

verus! {

/// The length of an IPv4 header without options.
pub const IP_PACKET_LEN: usize = 20;

/// An IPv4 datagram: header fields and payload.
#[derive(Debug)]
pub struct Ipv4Packet {
    pub version: u8,
    pub ihl: u8,
    pub tos: u8,
    pub total_length: u16,
    pub identification: u16,
    pub flags: u8,
    pub fragment_offset: u16,
    pub ttl: u8,
    pub protocol: u8,
    pub checksum: u16,
    pub src_addr: Ipv4Addr,
    pub dst_addr: Ipv4Addr,
    pub payload: Vec<u8>,
}

/// The mathematical content of an [`Ipv4Packet`].
pub struct Ipv4PacketView {
    pub version: u8,
    pub ihl: u8,
    pub tos: u8,
    pub total_length: u16,
    pub identification: u16,
    pub flags: u8,
    pub fragment_offset: u16,
    pub ttl: u8,
    pub protocol: u8,
    pub checksum: u16,
    pub src_addr: Ipv4Addr,
    pub dst_addr: Ipv4Addr,
    pub payload: Seq<u8>,
}

impl View for Ipv4Packet {
    type V = Ipv4PacketView;

    open spec fn view(&self) -> Ipv4PacketView {
        Ipv4PacketView {
            version: self.version,
            ihl: self.ihl,
            tos: self.tos,
            total_length: self.total_length,
            identification: self.identification,
            flags: self.flags,
            fragment_offset: self.fragment_offset,
            ttl: self.ttl,
            protocol: self.protocol,
            checksum: self.checksum,
            src_addr: self.src_addr,
            dst_addr: self.dst_addr,
            payload: self.payload@,
        }
    }
}

/// The first header byte: version in the high nibble, header length in
/// 32-bit words in the low nibble.
pub open spec fn pack_version_ihl(version: u8, ihl: u8) -> u8 {
    (version << 4) | ihl
}

/// The 16-bit field that holds the three flag bits on top of the 13-bit
/// fragment offset.
pub open spec fn pack_flags_offset(flags: u8, fragment_offset: u16) -> u16 {
    ((flags as u16) << 13) | fragment_offset
}

/// The version held in the first header byte.
pub open spec fn version_of(first: u8) -> u8 {
    first >> 4
}

/// The header length, in 32-bit words, held in the first header byte.
pub open spec fn ihl_of(first: u8) -> u8 {
    first & 0x0F
}

/// The flag bits of the packed flags and fragment-offset field.
pub open spec fn flags_of(packed: u16) -> u8 {
    (packed >> 13) as u8
}

/// The fragment offset of the packed flags and fragment-offset field.
pub open spec fn offset_of(packed: u16) -> u16 {
    packed & 0x1FFF
}

/// Unpacking a packed first byte gives both nibbles back.
pub proof fn lemma_unpack_version_ihl(version: u8, ihl: u8)
    requires
        version < 16,
        ihl < 16,
    ensures
        version_of(pack_version_ihl(version, ihl)) == version,
        ihl_of(pack_version_ihl(version, ihl)) == ihl,
{
    assert(((version << 4) | ihl) >> 4 == version && ((version << 4) | ihl) & 0x0F == ihl)
        by (bit_vector)
        requires
            version < 16,
            ihl < 16,
    ;
}

/// Unpacking a packed flags and fragment-offset field gives both parts
/// back.
pub proof fn lemma_unpack_flags_offset(flags: u8, fragment_offset: u16)
    requires
        flags < 8,
        fragment_offset < 0x2000,
    ensures
        flags_of(pack_flags_offset(flags, fragment_offset)) == flags,
        offset_of(pack_flags_offset(flags, fragment_offset)) == fragment_offset,
{
    assert(((((flags as u16) << 13) | fragment_offset) >> 13) as u8 == flags && (((flags as u16)
        << 13) | fragment_offset) & 0x1FFF == fragment_offset) by (bit_vector)
        requires
            flags < 8,
            fragment_offset < 0x2000,
    ;
}

impl Ipv4PacketView {
    /// Every packed field fits the bits the header gives it.
    pub open spec fn fits(self) -> bool {
        &&& self.version < 16
        &&& self.ihl < 16
        &&& self.flags < 8
        &&& self.fragment_offset < 0x2000
    }

    /// The same datagram with another value in its checksum field.
    pub open spec fn with_checksum(self, checksum: u16) -> Ipv4PacketView {
        Ipv4PacketView { checksum, ..self }
    }

    /// The 20-byte header without options, the checksum field as stored.
    pub open spec fn header(self) -> Seq<u8> {
        seq![pack_version_ihl(self.version, self.ihl), self.tos] + be16_bytes(self.total_length)
            + be16_bytes(self.identification) + be16_bytes(
            pack_flags_offset(self.flags, self.fragment_offset),
        ) + seq![self.ttl, self.protocol] + be16_bytes(self.checksum)
            + self.src_addr.octets_spec() + self.dst_addr.octets_spec()
    }

    /// The checksum of the 20-byte header, taken with the checksum field
    /// zeroed.
    pub open spec fn header_checksum(self) -> u16 {
        internet_checksum(self.with_checksum(0).header())
    }

    /// The wire form: the 20-byte header with its checksum filled in,
    /// then the payload.
    pub open spec fn to_bytes(self) -> Seq<u8> {
        self.with_checksum(self.header_checksum()).header() + self.payload
    }

    /// The datagram that `data` spells, if `data` holds the fixed header
    /// and the whole header that the header-length field announces.
    /// The payload starts where that header ends, after `ihl * 4` bytes.
    pub open spec fn parse(data: Seq<u8>) -> Option<Ipv4PacketView> {
        if data.len() < 20 || ihl_of(data[0]) * 4 > data.len() {
            None
        } else {
            Some(
                Ipv4PacketView {
                    version: version_of(data[0]),
                    ihl: ihl_of(data[0]),
                    tos: data[1],
                    total_length: be16_at(data, 2),
                    identification: be16_at(data, 4),
                    flags: flags_of(be16_at(data, 6)),
                    fragment_offset: offset_of(be16_at(data, 6)),
                    ttl: data[8],
                    protocol: data[9],
                    checksum: be16_at(data, 10),
                    src_addr: Ipv4Addr::at(data, 12),
                    dst_addr: Ipv4Addr::at(data, 16),
                    payload: data.skip(ihl_of(data[0]) * 4),
                },
            )
        }
    }

    /// The datagram that carries `payload` from `src_addr` to `dst_addr`:
    /// version 4, a header of five words, no fragmentation, and the
    /// header checksum filled in.
    pub open spec fn build(
        src_addr: Ipv4Addr,
        dst_addr: Ipv4Addr,
        protocol: u8,
        ttl: u8,
        payload: Seq<u8>,
    ) -> Ipv4PacketView {
        let blank = Ipv4PacketView {
            version: 4,
            ihl: 5,
            tos: 0,
            total_length: (20 + payload.len()) as u16,
            identification: 0,
            flags: 0,
            fragment_offset: 0,
            ttl,
            protocol,
            checksum: 0,
            src_addr,
            dst_addr,
            payload,
        };
        blank.with_checksum(blank.header_checksum())
    }

    /// The payload of a parsed datagram starts where the header ends:
    /// `ihl * 4` bytes into the buffer, after any options, and never at a
    /// fixed offset.
    pub proof fn lemma_payload_starts_after_header(data: Seq<u8>)
        ensures
            Self::parse(data) matches Some(packet) ==> {
                &&& packet.ihl * 4 <= data.len()
                &&& packet.payload == data.skip(packet.ihl * 4)
                &&& packet.payload.len() == data.len() - packet.ihl * 4
            },
    {
    }

    /// Parsing a stored header of five words, followed by the payload,
    /// gives the datagram back.
    pub proof fn lemma_parse_header(self)
        requires
            self.fits(),
            self.ihl == 5,
        ensures
            self.header().len() == 20,
            Self::parse(self.header() + self.payload) == Some(self),
    {
        let data = self.header() + self.payload;
        lemma_unpack_version_ihl(self.version, self.ihl);
        lemma_unpack_flags_offset(self.flags, self.fragment_offset);
        crate::bytes::lemma_be16_of_bytes(self.total_length);
        crate::bytes::lemma_be16_of_bytes(self.identification);
        crate::bytes::lemma_be16_of_bytes(pack_flags_offset(self.flags, self.fragment_offset));
        crate::bytes::lemma_be16_of_bytes(self.checksum);
        self.src_addr.lemma_new_of_octets();
        self.dst_addr.lemma_new_of_octets();
        assert(data[0] == pack_version_ihl(self.version, self.ihl));
        assert(be16_at(data, 6) == pack_flags_offset(self.flags, self.fragment_offset));
        assert(Ipv4Addr::at(data, 12) == Ipv4Addr::at(self.src_addr.octets_spec(), 0));
        assert(Ipv4Addr::at(data, 16) == Ipv4Addr::at(self.dst_addr.octets_spec(), 0));
        assert(data.skip(20) =~= self.payload);
    }

    /// Parsing the wire form of a datagram without options gives the
    /// datagram back, field for field, with the checksum that the wire
    /// form carries.
    pub proof fn lemma_parse_to_bytes(self)
        requires
            self.fits(),
            self.ihl == 5,
        ensures
            Self::parse(self.to_bytes()) == Some(self.with_checksum(self.header_checksum())),
            self.checksum == self.header_checksum() ==> Self::parse(self.to_bytes()) == Some(self),
    {
        self.with_checksum(self.header_checksum()).lemma_parse_header();
    }

    /// The header of the wire form carries a correct checksum: its 20
    /// bytes sum to all ones.
    pub proof fn lemma_to_bytes_validates(self)
        ensures
            self.to_bytes().take(20) == with_checksum_at(self.header(), 10),
            checksum_ok(self.to_bytes().take(20)),
    {
        let raw = self.header();
        assert(with_field(raw, 10, 0) =~= self.with_checksum(0).header());
        assert(with_checksum_at(raw, 10) =~= self.with_checksum(self.header_checksum()).header());
        assert(self.to_bytes().take(20) =~= with_checksum_at(raw, 10));
        crate::checksum::lemma_embedded_checksum_sums_to_ones(raw, 10);
    }

    /// A built datagram survives the wire: parsing its wire form gives
    /// it back field for field.
    pub proof fn lemma_build_round_trip(
        src_addr: Ipv4Addr,
        dst_addr: Ipv4Addr,
        protocol: u8,
        ttl: u8,
        payload: Seq<u8>,
    )
        ensures
            Self::parse(Self::build(src_addr, dst_addr, protocol, ttl, payload).to_bytes()) == Some(
                Self::build(src_addr, dst_addr, protocol, ttl, payload),
            ),
    {
        let built = Self::build(src_addr, dst_addr, protocol, ttl, payload);
        assert(built.with_checksum(0) == built.with_checksum(0).with_checksum(0));
        assert(built.header_checksum() == built.checksum);
        built.lemma_parse_to_bytes();
    }
}

impl Ipv4Packet {
    /// Parses a datagram. Fails when `data` is shorter than the fixed
    /// 20-byte header, or shorter than the header that the header-length
    /// field announces; succeeds on every other input. The payload is cut
    /// at `ihl * 4`, so header options are skipped.
    pub fn parse(data: &[u8]) -> (r: Result<Self>)
        ensures
            match r {
                Ok(packet) => Ipv4PacketView::parse(data@) == Some(packet@),
                Err(e) => {
                    &&& Ipv4PacketView::parse(data@) is None
                    &&& e matches StackError::InvalidPacket(msg)
                    &&& msg@ == if data@.len() < 20 {
                        "Ip packet too short"@
                    } else {
                        "Ip header too short"@
                    }
                },
            },
    {
        if data.len() < IP_PACKET_LEN {
            return Err(StackError::InvalidPacket("Ip packet too short".to_string()));
        }
        let first: u8 = data[0];
        let version: u8 = first >> 4;
        let ihl: u8 = first & 0x0F;
        assert(first & 0x0F < 16) by (bit_vector);
        let header_len: usize = (ihl as usize) * 4;
        if header_len > data.len() {
            return Err(StackError::InvalidPacket("Ip header too short".to_string()));
        }
        let tos = data[1];
        let total_length = be16(data[2], data[3]);
        let identification = be16(data[4], data[5]);
        let flags_and_offset = be16(data[6], data[7]);
        assert(flags_and_offset >> 13 < 8) by (bit_vector);
        let flags: u8 = (flags_and_offset >> 13) as u8;
        let fragment_offset: u16 = flags_and_offset & 0x1FFF;
        let ttl = data[8];
        let protocol = data[9];
        let checksum = be16(data[10], data[11]);
        let src_addr = ipv4_at(data, 12);
        let dst_addr = ipv4_at(data, 16);
        let payload = tail_from(data, header_len);
        Ok(
            Self {
                version,
                ihl,
                tos,
                total_length,
                identification,
                flags,
                fragment_offset,
                ttl,
                protocol,
                checksum,
                src_addr,
                dst_addr,
                payload,
            },
        )
    }

    /// Builds the datagram that carries `payload` from `src_addr` to
    /// `dst_addr`. The total length must fit its 16-bit field.
    pub fn build(src_addr: Ipv4Addr, dst_addr: Ipv4Addr, protocol: u8, ttl: u8, payload: Vec<u8>) -> (r:
        Self)
        requires
            20 + payload@.len() <= 0xFFFF,
        ensures
            r@ == Ipv4PacketView::build(src_addr, dst_addr, protocol, ttl, payload@),
            r.total_length == 20 + payload@.len(),
            r@.fits(),
    {
        let total_length: u16 = (20 + payload.len()) as u16;
        let mut packet = Self {
            version: 4,
            ihl: 5,
            tos: 0,
            total_length,
            identification: 0,
            flags: 0,
            fragment_offset: 0,
            ttl,
            protocol,
            checksum: 0,
            src_addr,
            dst_addr,
            payload,
        };
        let header = packet.header_bytes();
        let sum = Self::calculate_ip_checksum(header.as_slice());
        packet.checksum = sum;
        packet
    }

    /// The 20-byte header with a zero checksum field.
    fn header_bytes(&self) -> (bytes: Vec<u8>)
        ensures
            bytes@ == self@.with_checksum(0).header(),
            bytes@.len() == 20,
    {
        let mut bytes = Vec::with_capacity(20);
        bytes.push((self.version << 4) | self.ihl);
        bytes.push(self.tos);
        push_be16(&mut bytes, self.total_length);
        push_be16(&mut bytes, self.identification);
        let flags_offset: u16 = ((self.flags as u16) << 13) | self.fragment_offset;
        push_be16(&mut bytes, flags_offset);
        bytes.push(self.ttl);
        bytes.push(self.protocol);
        push_be16(&mut bytes, 0);
        push_all(&mut bytes, self.src_addr.octets().as_slice());
        push_all(&mut bytes, self.dst_addr.octets().as_slice());
        assert(bytes@ =~= self@.with_checksum(0).header());
        bytes
    }

    /// The wire form of the datagram: the 20-byte header, its checksum
    /// computed over the header whatever the stored field holds, then the
    /// payload.
    pub fn to_bytes(&self) -> (bytes: Vec<u8>)
        ensures
            bytes@ == self@.to_bytes(),
            checksum_ok(bytes@.take(20)),
            self@.fits() && self.ihl == 5 ==> Ipv4PacketView::parse(bytes@) == Some(
                self@.with_checksum(self@.header_checksum()),
            ),
    {
        let mut bytes = self.header_bytes();
        embed_checksum(&mut bytes, 10);
        proof {
            let zeroed = self@.with_checksum(0);
            zeroed.lemma_to_bytes_validates();
            assert(zeroed.with_checksum(0) == zeroed);
            assert(zeroed.header_checksum() == self@.header_checksum());
            assert(zeroed.with_checksum(zeroed.header_checksum()) == self@.with_checksum(
                self@.header_checksum(),
            ));
            assert(bytes@ =~= self@.with_checksum(self@.header_checksum()).header());
            self@.lemma_to_bytes_validates();
            if self@.fits() && self.ihl == 5 {
                self@.lemma_parse_to_bytes();
            }
        }
        push_all(&mut bytes, self.payload.as_slice());
        bytes
    }

    /// The Internet checksum of `header`.
    pub fn calculate_ip_checksum(header: &[u8]) -> (r: u16)
        ensures
            r == internet_checksum(header@),
    {
        checksum(header)
    }
}

} // verus!
