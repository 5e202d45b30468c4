//! ICMP: the 8-byte message header and the echo reply.

use vstd::prelude::*;
use crate::bytes::{be16, be16_at, be16_bytes, push_all, push_be16, tail_from};
use crate::checksum::{checksum, checksum_ok, embed_checksum, internet_checksum, with_checksum_at, with_field};
use crate::error::{Result, StackError};

verus! {

/// The length of the ICMP header.
pub const ICMP_PACKET_MIN_LEN: usize = 8;

/// The IPv4 protocol number of ICMP.
pub const ICMP_PROTOCOL: u8 = 1;

/// An ICMP message: header fields and payload.
#[derive(Debug)]
pub struct IcmpPacket {
    pub icmp_type: u8,
    pub code: u8,
    pub checksum: u16,
    pub identifier: u16,
    pub sequence: u16,
    pub payload: Vec<u8>,
}

/// The ICMP message types this stack knows by name.
#[derive(Debug, Clone, Copy, PartialEq, Eq, Structural)]
pub enum IcmpType {
    EchoReply,
    DestinationUnreachable,
    TimeExceeded,
    EchoRequest,
}

impl IcmpType {
    /// The wire code of each known type.
    pub open spec fn code(self) -> u8 {
        match self {
            IcmpType::EchoReply => 0,
            IcmpType::DestinationUnreachable => 3,
            IcmpType::TimeExceeded => 11,
            IcmpType::EchoRequest => 8,
        }
    }

    /// The type a wire code stands for, if it is a known one.
    pub open spec fn of_code(value: u8) -> Option<IcmpType> {
        if value == 0 {
            Some(IcmpType::EchoReply)
        } else if value == 3 {
            Some(IcmpType::DestinationUnreachable)
        } else if value == 11 {
            Some(IcmpType::TimeExceeded)
        } else if value == 8 {
            Some(IcmpType::EchoRequest)
        } else {
            None
        }
    }

    /// Every known type is found again from its own code.
    pub proof fn lemma_code_round_trip(self)
        ensures
            Self::of_code(self.code()) == Some(self),
    {
    }

    /// A code that names a type is the code of that type.
    pub proof fn lemma_of_code_sound(value: u8)
        ensures
            Self::of_code(value) matches Some(t) ==> t.code() == value,
    {
    }

    /// The wire code of `icmp_type`.
    pub fn to_u8(icmp_type: IcmpType) -> (r: u8)
        ensures
            r == icmp_type.code(),
    {
        match icmp_type {
            IcmpType::EchoReply => 0,
            IcmpType::DestinationUnreachable => 3,
            IcmpType::TimeExceeded => 11,
            IcmpType::EchoRequest => 8,
        }
    }

    /// Decodes a message type; an unrecognized code gives `None`.
    pub fn from_u8(value: u8) -> (r: Option<IcmpType>)
        ensures
            r == Self::of_code(value),
    {
        match value {
            0 => Some(IcmpType::EchoReply),
            3 => Some(IcmpType::DestinationUnreachable),
            11 => Some(IcmpType::TimeExceeded),
            8 => Some(IcmpType::EchoRequest),
            _ => None,
        }
    }
}

/// The mathematical content of an [`IcmpPacket`].
pub struct IcmpPacketView {
    pub icmp_type: u8,
    pub code: u8,
    pub checksum: u16,
    pub identifier: u16,
    pub sequence: u16,
    pub payload: Seq<u8>,
}

impl View for IcmpPacket {
    type V = IcmpPacketView;

    open spec fn view(&self) -> IcmpPacketView {
        IcmpPacketView {
            icmp_type: self.icmp_type,
            code: self.code,
            checksum: self.checksum,
            identifier: self.identifier,
            sequence: self.sequence,
            payload: self.payload@,
        }
    }
}

impl IcmpPacketView {
    /// The same message with another value in its checksum field.
    pub open spec fn with_checksum(self, checksum: u16) -> IcmpPacketView {
        IcmpPacketView { checksum, ..self }
    }

    /// The fields laid out in wire order, the checksum field as stored.
    pub open spec fn layout(self) -> Seq<u8> {
        seq![self.icmp_type, self.code] + be16_bytes(self.checksum) + be16_bytes(self.identifier)
            + be16_bytes(self.sequence) + self.payload
    }

    /// The checksum of the whole message, header and payload, taken with
    /// the checksum field zeroed.
    pub open spec fn message_checksum(self) -> u16 {
        internet_checksum(self.with_checksum(0).layout())
    }

    /// The wire form: the fields in order, with the checksum of the whole
    /// message written into the checksum field.
    pub open spec fn to_bytes(self) -> Seq<u8> {
        self.with_checksum(self.message_checksum()).layout()
    }

    /// The message that `data` spells, if `data` holds a whole header.
    pub open spec fn parse(data: Seq<u8>) -> Option<IcmpPacketView> {
        if data.len() < 8 {
            None
        } else {
            Some(
                IcmpPacketView {
                    icmp_type: data[0],
                    code: data[1],
                    checksum: be16_at(data, 2),
                    identifier: be16_at(data, 4),
                    sequence: be16_at(data, 6),
                    payload: data.skip(8),
                },
            )
        }
    }

    /// The echo reply to `self`: type and code are zero, and identifier,
    /// sequence and payload are those of the request.
    pub open spec fn reply(self) -> IcmpPacketView {
        IcmpPacketView {
            icmp_type: 0,
            code: 0,
            checksum: 0,
            identifier: self.identifier,
            sequence: self.sequence,
            payload: self.payload,
        }
    }

    /// Parsing the stored layout of a message gives the message back.
    pub proof fn lemma_parse_layout(self)
        ensures
            Self::parse(self.layout()) == Some(self),
    {
        let back = Self::parse(self.layout()).unwrap();
        crate::bytes::lemma_be16_of_bytes(self.checksum);
        crate::bytes::lemma_be16_of_bytes(self.identifier);
        crate::bytes::lemma_be16_of_bytes(self.sequence);
        assert(back.payload =~= self.payload);
    }

    /// Parsing the wire form of a message gives the message back, field
    /// for field, with the checksum that the wire form carries.
    pub proof fn lemma_parse_to_bytes(self)
        ensures
            Self::parse(self.to_bytes()) == Some(self.with_checksum(self.message_checksum())),
            self.checksum == self.message_checksum() ==> Self::parse(self.to_bytes()) == Some(self),
    {
        self.with_checksum(self.message_checksum()).lemma_parse_layout();
    }

    /// The wire form carries a correct checksum: it sums to all ones.
    pub proof fn lemma_to_bytes_validates(self)
        ensures
            self.to_bytes() == with_checksum_at(self.layout(), 2),
            checksum_ok(self.to_bytes()),
    {
        let raw = self.layout();
        assert(with_field(raw, 2, 0) =~= self.with_checksum(0).layout());
        assert(with_checksum_at(raw, 2) =~= self.to_bytes());
        crate::checksum::lemma_embedded_checksum_sums_to_ones(raw, 2);
    }

    /// The wire form of an echo reply starts with a zero type byte and
    /// parses to a message with the request's identifier, sequence and
    /// payload.
    pub proof fn lemma_reply_echoes(self)
        ensures
            self.reply().to_bytes()[0] == 0,
            Self::parse(self.reply().to_bytes()) matches Some(back) && {
                &&& back.icmp_type == 0
                &&& back.code == 0
                &&& back.identifier == self.identifier
                &&& back.sequence == self.sequence
                &&& back.payload == self.payload
            },
    {
        self.reply().lemma_parse_to_bytes();
    }
}

impl IcmpPacket {
    /// Parses a message. Fails exactly when `data` is shorter than the
    /// 8-byte header.
    pub fn parse(data: &[u8]) -> (r: Result<Self>)
        ensures
            match r {
                Ok(packet) => IcmpPacketView::parse(data@) == Some(packet@),
                Err(e) => {
                    &&& data@.len() < 8
                    &&& e matches StackError::InvalidPacket(msg)
                    &&& msg@ == "Icmp packet too short"@
                },
            },
    {
        if data.len() < ICMP_PACKET_MIN_LEN {
            return Err(StackError::InvalidPacket("Icmp packet too short".to_string()));
        }
        let icmp_type = data[0];
        let code = data[1];
        let checksum = be16(data[2], data[3]);
        let identifier = be16(data[4], data[5]);
        let sequence = be16(data[6], data[7]);
        let payload = tail_from(data, 8);
        Ok(Self { icmp_type, code, checksum, identifier, sequence, payload })
    }

    /// Builds the echo reply to `request`: it carries back exactly the
    /// identifier, sequence and payload that were sent.
    pub fn build_reply(request: &IcmpPacket) -> (r: Self)
        ensures
            r@ == request@.reply(),
    {
        Self {
            icmp_type: IcmpType::to_u8(IcmpType::EchoReply),
            code: 0,
            checksum: 0,
            identifier: request.identifier,
            sequence: request.sequence,
            payload: request.payload.clone(),
        }
    }

    /// The wire form of the message. The checksum field is computed over
    /// the whole message, whatever the stored field holds, so the result
    /// passes validation.
    pub fn to_bytes(&self) -> (bytes: Vec<u8>)
        ensures
            bytes@ == self@.to_bytes(),
            checksum_ok(bytes@),
            IcmpPacketView::parse(bytes@) == Some(self@.with_checksum(self@.message_checksum())),
    {
        let mut bytes = Vec::with_capacity(8);
        bytes.push(self.icmp_type);
        bytes.push(self.code);
        push_be16(&mut bytes, 0);
        push_be16(&mut bytes, self.identifier);
        push_be16(&mut bytes, self.sequence);
        push_all(&mut bytes, self.payload.as_slice());
        assert(bytes@ =~= self@.with_checksum(0).layout());
        embed_checksum(&mut bytes, 2);
        proof {
            let zeroed = self@.with_checksum(0);
            zeroed.lemma_to_bytes_validates();
            assert(zeroed.with_checksum(0) == zeroed);
            assert(zeroed.to_bytes() == self@.to_bytes());
            self@.lemma_parse_to_bytes();
        }
        bytes
    }

    /// The Internet checksum of `data`.
    pub fn calculate_checksum(data: &[u8]) -> (r: u16)
        ensures
            r == internet_checksum(data@),
    {
        checksum(data)
    }
}

} // verus!
