//! ARP: the 28-byte message, the address cache with its expiry, and the
//! module that learns from every message and answers requests for the
//! local address.

use std::collections::HashMap;
use vstd::prelude::*;
use crate::addr::{ipv4_at, mac_at, mac_of_bytes, Ipv4Addr};
use crate::bytes::{be16, be16_at, be16_bytes, push_all, push_be16};
use crate::clock::Clock;
use crate::error::{Result, StackError};

verus! {

broadcast use vstd::std_specs::hash::group_hash_axioms;

pub use crate::addr::MacAddr;

/// The length of an ARP message for Ethernet and IPv4.
pub const ARP_PACKET_MIN_LEN: usize = 28;

/// How long the module trusts a learned address: 300 seconds, in
/// nanoseconds.
pub const ARP_CACHE_TIMEOUT_NANOS: u128 = 300_000_000_000;

/// The ARP operations this stack knows by name.
#[derive(Debug, Clone, Copy, PartialEq, Eq, Structural)]
pub enum ArpOperation {
    Request,
    Reply,
    RArpRequest,
    RArpReply,
}

impl ArpOperation {
    /// The wire code of each known operation.
    pub open spec fn code(self) -> u16 {
        match self {
            ArpOperation::Request => 1,
            ArpOperation::Reply => 2,
            ArpOperation::RArpRequest => 3,
            ArpOperation::RArpReply => 4,
        }
    }

    /// The operation a wire code stands for, if it is a known one.
    pub open spec fn of_code(value: u16) -> Option<ArpOperation> {
        if value == 1 {
            Some(ArpOperation::Request)
        } else if value == 2 {
            Some(ArpOperation::Reply)
        } else if value == 3 {
            Some(ArpOperation::RArpRequest)
        } else if value == 4 {
            Some(ArpOperation::RArpReply)
        } else {
            None
        }
    }

    /// Every known operation is found again from its own code.
    pub proof fn lemma_code_round_trip(self)
        ensures
            Self::of_code(self.code()) == Some(self),
    {
    }

    /// A code that names an operation is the code of that operation.
    pub proof fn lemma_of_code_sound(value: u16)
        ensures
            Self::of_code(value) matches Some(op) ==> op.code() == value,
    {
    }

    /// Decodes an operation; an unrecognized code gives `None`.
    pub fn from_u16(value: u16) -> (r: Option<Self>)
        ensures
            r == Self::of_code(value),
    {
        match value {
            1 => Some(ArpOperation::Request),
            2 => Some(ArpOperation::Reply),
            3 => Some(ArpOperation::RArpRequest),
            4 => Some(ArpOperation::RArpReply),
            _ => None,
        }
    }

    /// The wire code of `arp_operation`.
    pub fn to_u16(arp_operation: ArpOperation) -> (r: u16)
        ensures
            r == arp_operation.code(),
    {
        match arp_operation {
            ArpOperation::Request => 1,
            ArpOperation::Reply => 2,
            ArpOperation::RArpRequest => 3,
            ArpOperation::RArpReply => 4,
        }
    }
}

/// An ARP message. An operation code that names no known operation is
/// kept as it is.
#[derive(Debug)]
pub struct ArpPacket {
    pub hardware_type: u16,
    pub protocol_type: u16,
    pub hardware_len: u8,
    pub procotol_len: u8,
    pub operation: u16,
    pub sender_mac: [u8; 6],
    pub sender_ip: Ipv4Addr,
    pub target_mac: [u8; 6],
    pub target_ip: Ipv4Addr,
}

/// The mathematical content of an [`ArpPacket`].
pub struct ArpPacketView {
    pub hardware_type: u16,
    pub protocol_type: u16,
    pub hardware_len: u8,
    pub procotol_len: u8,
    pub operation: u16,
    pub sender_mac: Seq<u8>,
    pub sender_ip: Ipv4Addr,
    pub target_mac: Seq<u8>,
    pub target_ip: Ipv4Addr,
}

impl View for ArpPacket {
    type V = ArpPacketView;

    open spec fn view(&self) -> ArpPacketView {
        ArpPacketView {
            hardware_type: self.hardware_type,
            protocol_type: self.protocol_type,
            hardware_len: self.hardware_len,
            procotol_len: self.procotol_len,
            operation: self.operation,
            sender_mac: self.sender_mac@,
            sender_ip: self.sender_ip,
            target_mac: self.target_mac@,
            target_ip: self.target_ip,
        }
    }
}

impl ArpPacketView {
    /// Both MAC addresses are six bytes long, as they are in every
    /// message value.
    pub open spec fn wf(self) -> bool {
        self.sender_mac.len() == 6 && self.target_mac.len() == 6
    }

    /// The 28-byte wire form.
    pub open spec fn to_bytes(self) -> Seq<u8> {
        be16_bytes(self.hardware_type) + be16_bytes(self.protocol_type) + seq![
            self.hardware_len,
            self.procotol_len,
        ] + be16_bytes(self.operation) + self.sender_mac + self.sender_ip.octets_spec()
            + self.target_mac + self.target_ip.octets_spec()
    }

    /// The message that `data` spells, if `data` holds all 28 bytes.
    pub open spec fn parse(data: Seq<u8>) -> Option<ArpPacketView> {
        if data.len() < 28 {
            None
        } else {
            Some(
                ArpPacketView {
                    hardware_type: be16_at(data, 0),
                    protocol_type: be16_at(data, 2),
                    hardware_len: data[4],
                    procotol_len: data[5],
                    operation: be16_at(data, 6),
                    sender_mac: data.subrange(8, 14),
                    sender_ip: Ipv4Addr::at(data, 14),
                    target_mac: data.subrange(18, 24),
                    target_ip: Ipv4Addr::at(data, 24),
                },
            )
        }
    }

    /// The request with which `sender_ip` at `sender_mac` asks for the
    /// MAC address of `target_ip`: the target MAC is not known yet and
    /// is all zero.
    pub open spec fn request(sender_mac: Seq<u8>, sender_ip: Ipv4Addr, target_ip: Ipv4Addr) -> ArpPacketView {
        ArpPacketView {
            hardware_type: 1,
            protocol_type: 0x0800,
            hardware_len: 6,
            procotol_len: 4,
            operation: 1,
            sender_mac,
            sender_ip,
            target_mac: seq![0u8, 0u8, 0u8, 0u8, 0u8, 0u8],
            target_ip,
        }
    }

    /// The reply with which the owner of `our_mac` answers `self`: the
    /// sender is `our_mac` at the address that was asked for, and the
    /// target is the sender of the request.
    pub open spec fn reply(self, our_mac: Seq<u8>) -> ArpPacketView {
        ArpPacketView {
            hardware_type: 1,
            protocol_type: 0x0800,
            hardware_len: 6,
            procotol_len: 4,
            operation: 2,
            sender_mac: our_mac,
            sender_ip: self.target_ip,
            target_mac: self.sender_mac,
            target_ip: self.sender_ip,
        }
    }

    /// Parsing the wire form of a message gives the message back, field
    /// for field.
    pub proof fn lemma_parse_to_bytes(self)
        requires
            self.wf(),
        ensures
            self.to_bytes().len() == 28,
            Self::parse(self.to_bytes()) == Some(self),
    {
        let data = self.to_bytes();
        let back = Self::parse(data).unwrap();
        crate::bytes::lemma_be16_of_bytes(self.hardware_type);
        crate::bytes::lemma_be16_of_bytes(self.protocol_type);
        crate::bytes::lemma_be16_of_bytes(self.operation);
        self.sender_ip.lemma_new_of_octets();
        self.target_ip.lemma_new_of_octets();
        assert(Ipv4Addr::at(data, 14) == Ipv4Addr::at(self.sender_ip.octets_spec(), 0));
        assert(Ipv4Addr::at(data, 24) == Ipv4Addr::at(self.target_ip.octets_spec(), 0));
        assert(back.sender_mac =~= self.sender_mac);
        assert(back.target_mac =~= self.target_mac);
    }

    /// Serializing a parsed message gives its first 28 bytes back.
    pub proof fn lemma_to_bytes_parse(data: Seq<u8>)
        requires
            data.len() >= 28,
        ensures
            Self::parse(data).unwrap().wf(),
            Self::parse(data).unwrap().to_bytes() == data.take(28),
    {
        crate::bytes::lemma_bytes_of_be16(data[0], data[1]);
        crate::bytes::lemma_bytes_of_be16(data[2], data[3]);
        crate::bytes::lemma_bytes_of_be16(data[6], data[7]);
        Ipv4Addr::lemma_octets_of_new(data[14], data[15], data[16], data[17]);
        Ipv4Addr::lemma_octets_of_new(data[24], data[25], data[26], data[27]);
        assert(Self::parse(data).unwrap().to_bytes() =~= data.take(28));
    }
}

impl ArpPacket {
    /// Parses a message. Fails exactly when `data` is shorter than 28
    /// bytes; bytes after the 28th are ignored.
    pub fn parse(data: &[u8]) -> (r: Result<Self>)
        ensures
            match r {
                Ok(packet) => {
                    &&& ArpPacketView::parse(data@) == Some(packet@)
                    &&& packet.sender_mac == mac_of_bytes(data@, 8)
                    &&& packet.target_mac == mac_of_bytes(data@, 18)
                },
                Err(e) => {
                    &&& data@.len() < 28
                    &&& e matches StackError::InvalidPacket(msg)
                    &&& msg@ == "ARP packet too short"@
                },
            },
    {
        if data.len() < ARP_PACKET_MIN_LEN {
            return Err(StackError::InvalidPacket("ARP packet too short".to_string()));
        }
        let hardware_type = be16(data[0], data[1]);
        let protocol_type = be16(data[2], data[3]);
        let hardware_len = data[4];
        let procotol_len = data[5];
        let operation = be16(data[6], data[7]);
        let sender_mac = mac_at(data, 8);
        let sender_ip = ipv4_at(data, 14);
        let target_mac = mac_at(data, 18);
        let target_ip = ipv4_at(data, 24);
        Ok(
            Self {
                hardware_type,
                protocol_type,
                hardware_len,
                procotol_len,
                operation,
                sender_mac,
                sender_ip,
                target_mac,
                target_ip,
            },
        )
    }

    /// Builds the request with which `sender_ip` asks who has
    /// `target_ip`.
    pub fn build_request(sender_mac: [u8; 6], sender_ip: Ipv4Addr, target_ip: Ipv4Addr) -> (r:
        Self)
        ensures
            r@ == ArpPacketView::request(sender_mac@, sender_ip, target_ip),
    {
        let r = Self {
            hardware_type: 1,
            protocol_type: 0x0800,
            hardware_len: 6,
            procotol_len: 4,
            operation: 1,
            sender_mac,
            sender_ip,
            target_mac: [0u8; 6],
            target_ip,
        };
        assert(r.target_mac@ =~= seq![0u8, 0u8, 0u8, 0u8, 0u8, 0u8]);
        r
    }

    /// Builds the reply to `request` for the owner of `our_mac`: sender
    /// and target change places, and `our_mac` answers for the address
    /// that was asked for.
    pub fn build_reply(request: &ArpPacket, our_mac: [u8; 6]) -> (r: Self)
        ensures
            r@ == request@.reply(our_mac@),
            r.sender_mac == our_mac,
            r.target_mac == request.sender_mac,
    {
        Self {
            hardware_type: 1,
            protocol_type: 0x0800,
            hardware_len: 6,
            procotol_len: 4,
            operation: 2,
            sender_mac: our_mac,
            sender_ip: request.target_ip,
            target_mac: request.sender_mac,
            target_ip: request.sender_ip,
        }
    }

    /// The 28-byte wire form of the message; parsing it gives the
    /// message back.
    pub fn to_bytes(&self) -> (bytes: Vec<u8>)
        ensures
            bytes@ == self@.to_bytes(),
            bytes@.len() == 28,
            ArpPacketView::parse(bytes@) == Some(self@),
    {
        let mut bytes = Vec::with_capacity(ARP_PACKET_MIN_LEN);
        push_be16(&mut bytes, self.hardware_type);
        push_be16(&mut bytes, self.protocol_type);
        bytes.push(self.hardware_len);
        bytes.push(self.procotol_len);
        push_be16(&mut bytes, self.operation);
        push_all(&mut bytes, self.sender_mac.as_slice());
        push_all(&mut bytes, self.sender_ip.octets().as_slice());
        push_all(&mut bytes, self.target_mac.as_slice());
        push_all(&mut bytes, self.target_ip.octets().as_slice());
        proof {
            assert(bytes@ =~= self@.to_bytes());
            self@.lemma_parse_to_bytes();
        }
        bytes
    }
}

/// What the cache remembers of one address: the MAC address last seen
/// for it, and the clock reading at which it was seen.
#[derive(Debug, Clone, Copy)]
pub struct ArpEntry {
    pub mac: MacAddr,
    pub stamp: u128,
}

/// The age at time `now` of an entry stamped at `stamp`. A clock reading
/// that lies before the stamp counts as no time passed.
pub open spec fn age(stamp: u128, now: u128) -> nat {
    if now >= stamp {
        (now - stamp) as nat
    } else {
        0
    }
}

/// An entry is valid only while its age is below the timeout.
pub open spec fn fresh(stamp: u128, now: u128, timeout: u128) -> bool {
    age(stamp, now) < timeout
}

/// The mathematical content of an [`ArpCache`]: the entries, keyed by the
/// 32-bit value of the address, and the timeout in clock units.
pub struct ArpCacheView {
    pub entries: Map<u32, ArpEntry>,
    pub timeout: u128,
}

impl ArpCacheView {
    /// The cache holds finitely many entries, as every cache value does.
    pub open spec fn wf(self) -> bool {
        self.entries.dom().finite()
    }

    /// Whether the cache holds an entry for `ip`, fresh or stale.
    pub open spec fn contains(self, ip: Ipv4Addr) -> bool {
        self.entries.contains_key(ip.bits)
    }

    /// The number of entries held, fresh or stale.
    pub open spec fn len(self) -> nat {
        self.entries.dom().len()
    }

    /// The cache after `ip` was seen with `mac` at time `now`: whatever
    /// was known of `ip` is overwritten.
    pub open spec fn insert_at(self, ip: Ipv4Addr, mac: MacAddr, now: u128) -> ArpCacheView {
        ArpCacheView { entries: self.entries.insert(ip.bits, ArpEntry { mac, stamp: now }), ..self }
    }

    /// What a lookup of `ip` at time `now` answers: the MAC address held
    /// for `ip`, if there is one and it is still fresh.
    pub open spec fn lookup_at(self, ip: Ipv4Addr, now: u128) -> Option<MacAddr> {
        if self.contains(ip) && fresh(self.entries[ip.bits].stamp, now, self.timeout) {
            Some(self.entries[ip.bits].mac)
        } else {
            None
        }
    }

    /// The cache after a lookup of `ip` at time `now`: a stale entry for
    /// `ip` is gone, everything else stays.
    pub open spec fn after_lookup(self, ip: Ipv4Addr, now: u128) -> ArpCacheView {
        if self.contains(ip) && !fresh(self.entries[ip.bits].stamp, now, self.timeout) {
            self.remove(ip)
        } else {
            self
        }
    }

    /// The keys whose entries are still fresh at time `now`.
    pub open spec fn fresh_keys(self, now: u128) -> Set<u32> {
        fresh_keys_of(self.entries, now, self.timeout)
    }

    /// The cache after a sweep at time `now`: exactly the fresh entries
    /// are left.
    pub open spec fn sweep_at(self, now: u128) -> ArpCacheView {
        ArpCacheView { entries: self.entries.restrict(self.fresh_keys(now)), ..self }
    }

    /// The cache without its entry for `ip`.
    pub open spec fn remove(self, ip: Ipv4Addr) -> ArpCacheView {
        ArpCacheView { entries: self.entries.remove(ip.bits), ..self }
    }

    /// What the cache holds for `ip`, fresh or stale.
    pub open spec fn mac_of(self, ip: Ipv4Addr) -> Option<MacAddr> {
        if self.contains(ip) {
            Some(self.entries[ip.bits].mac)
        } else {
            None
        }
    }

    /// An address that was just inserted is found at once, with the MAC
    /// address it was inserted with, whatever the cache held before.
    /// This holds for every timeout but zero, with which no entry is ever
    /// fresh.
    pub proof fn lemma_insert_then_lookup(self, ip: Ipv4Addr, mac: MacAddr, now: u128)
        requires
            self.timeout > 0,
        ensures
            self.insert_at(ip, mac, now).lookup_at(ip, now) == Some(mac),
            self.insert_at(ip, mac, now).after_lookup(ip, now) == self.insert_at(ip, mac, now),
    {
    }

    /// An inserted address stays found until the timeout has passed.
    pub proof fn lemma_lookup_before_timeout(self, ip: Ipv4Addr, mac: MacAddr, now: u128, later: u128)
        requires
            now <= later,
            later - now < self.timeout,
        ensures
            self.insert_at(ip, mac, now).lookup_at(ip, later) == Some(mac),
    {
    }

    /// Once the timeout has passed with no further insert, a lookup
    /// finds nothing, and the entry is gone from the cache afterwards:
    /// the count is one less than before the lookup.
    pub proof fn lemma_lookup_after_timeout(self, ip: Ipv4Addr, mac: MacAddr, now: u128, later: u128)
        requires
            self.wf(),
            now <= later,
            later - now >= self.timeout,
        ensures
            self.insert_at(ip, mac, now).lookup_at(ip, later) is None,
            !self.insert_at(ip, mac, now).after_lookup(ip, later).contains(ip),
            self.insert_at(ip, mac, now).after_lookup(ip, later).len() + 1 == self.insert_at(
                ip,
                mac,
                now,
            ).len(),
    {
        let filled = self.insert_at(ip, mac, now);
        filled.entries.lemma_remove_key_len(ip.bits);
    }

    /// A later insert for the same address overwrites the earlier one,
    /// whoever sent it: the cache trusts every message it sees.
    pub proof fn lemma_insert_overwrites(
        self,
        ip: Ipv4Addr,
        first: MacAddr,
        second: MacAddr,
        now: u128,
        later: u128,
    )
        ensures
            self.insert_at(ip, first, now).insert_at(ip, second, later) == self.insert_at(
                ip,
                second,
                later,
            ),
            self.insert_at(ip, first, now).insert_at(ip, second, later).mac_of(ip) == Some(second),
    {
        assert(self.entries.insert(ip.bits, ArpEntry { mac: first, stamp: now }).insert(
            ip.bits,
            ArpEntry { mac: second, stamp: later },
        ) =~= self.entries.insert(ip.bits, ArpEntry { mac: second, stamp: later }));
    }

    /// After a sweep no stale entry is left and every fresh entry is
    /// still there, unchanged; a lookup answers as it did before.
    pub proof fn lemma_sweep_keeps_fresh(self, now: u128, ip: Ipv4Addr)
        ensures
            self.sweep_at(now).contains(ip) <==> self.contains(ip) && fresh(
                self.entries[ip.bits].stamp,
                now,
                self.timeout,
            ),
            self.sweep_at(now).lookup_at(ip, now) == self.lookup_at(ip, now),
    {
    }
}

/// The keys of `entries` whose entries are still fresh at time `now`.
pub open spec fn fresh_keys_of(entries: Map<u32, ArpEntry>, now: u128, timeout: u128) -> Set<u32> {
    Set::new(|k: u32| entries.contains_key(k) && fresh(entries[k].stamp, now, timeout))
}

/// Whether an entry stamped at `stamp` is still valid at time `now`.
pub fn is_fresh(stamp: u128, now: u128, timeout: u128) -> (r: bool)
    ensures
        r == fresh(stamp, now, timeout),
{
    if now >= stamp {
        now - stamp < timeout
    } else {
        0 < timeout
    }
}

/// `HashMap::retain` keeps exactly the entries for which the closure
/// answers true, unchanged, and drops the others. The closure here is the
/// freshness test, so what is left is the map restricted to its fresh
/// keys.
#[verifier::external_body]
fn retain_fresh(entries: &mut HashMap<u32, ArpEntry>, now: u128, timeout: u128)
    ensures
        final(entries)@ == old(entries)@.restrict(fresh_keys_of(old(entries)@, now, timeout)),
{
    entries.retain(|_, entry| is_fresh(entry.stamp, now, timeout));
}

/// The table of known addresses. Every entry carries the clock reading at
/// which it was learned, and counts only while it is younger than the
/// timeout. The clock is the time that has passed since the cache was
/// made, in nanoseconds.
#[derive(Debug)]
pub struct ArpCache {
    entries: HashMap<u32, ArpEntry>,
    timeout: u128,
    clock: Clock,
}

impl View for ArpCache {
    type V = ArpCacheView;

    closed spec fn view(&self) -> ArpCacheView {
        ArpCacheView { entries: self.entries@, timeout: self.timeout }
    }
}

impl ArpCache {
    /// An empty cache whose entries live for `timeout` nanoseconds.
    pub fn new(timeout: u128) -> (r: Self)
        ensures
            r@.entries == Map::<u32, ArpEntry>::empty(),
            r@.timeout == timeout,
            r@.wf(),
    {
        Self { entries: HashMap::new(), timeout, clock: Clock::start() }
    }

    /// Every cache holds finitely many entries.
    pub proof fn lemma_wf(&self)
        ensures
            self@.wf(),
    {
    }

    /// The cache's clock: nanoseconds since the cache was made.
    pub fn now(&self) -> (now: u128) {
        self.clock.nanos()
    }

    /// The timeout the cache was made with, in nanoseconds.
    pub fn timeout(&self) -> (r: u128)
        ensures
            r == self@.timeout,
    {
        self.timeout
    }

    /// The number of entries held, fresh or stale.
    pub fn len(&self) -> (r: usize)
        ensures
            r == self@.len(),
    {
        self.entries.len()
    }

    /// Records at clock reading `now` that `ip` is at `mac`, overwriting
    /// whatever was known of `ip`.
    pub fn insert_at(&mut self, ip: Ipv4Addr, mac: MacAddr, now: u128)
        ensures
            final(self)@ == old(self)@.insert_at(ip, mac, now),
    {
        self.entries.insert(ip.bits, ArpEntry { mac, stamp: now });
    }

    /// Records that `ip` is at `mac`, stamped with the current clock
    /// reading, overwriting whatever was known of `ip`. Nothing checks
    /// who says so.
    pub fn insert(&mut self, ip: Ipv4Addr, mac: MacAddr)
        ensures
            exists|now: u128| final(self)@ == old(self)@.insert_at(ip, mac, now),
            final(self)@.mac_of(ip) == Some(mac),
    {
        let now = self.now();
        self.insert_at(ip, mac, now);
    }

    /// Looks `ip` up at clock reading `now`. A fresh entry gives its MAC
    /// address; a stale entry gives `None` and is removed.
    pub fn lookup_at(&mut self, ip: &Ipv4Addr, now: u128) -> (r: Option<MacAddr>)
        ensures
            r == old(self)@.lookup_at(*ip, now),
            final(self)@ == old(self)@.after_lookup(*ip, now),
    {
        let key: u32 = ip.bits;
        let found: Option<ArpEntry> = match self.entries.get(&key) {
            Some(entry) => Some(*entry),
            None => None,
        };
        match found {
            Some(entry) => {
                if is_fresh(entry.stamp, now, self.timeout) {
                    Some(entry.mac)
                } else {
                    self.entries.remove(&key);
                    None
                }
            },
            None => None,
        }
    }

    /// Looks `ip` up at the current clock reading. A fresh entry gives
    /// its MAC address; a stale entry gives `None` and is removed.
    pub fn loopup(&mut self, ip: &Ipv4Addr) -> (r: Option<MacAddr>)
        ensures
            exists|now: u128|
                r == old(self)@.lookup_at(*ip, now) && final(self)@ == old(self)@.after_lookup(
                    *ip,
                    now,
                ),
            !old(self)@.contains(*ip) ==> r is None && final(self)@ == old(self)@,
            r matches Some(mac) ==> old(self)@.mac_of(*ip) == Some(mac) && final(self)@ == old(
                self,
            )@,
    {
        let now = self.now();
        self.lookup_at(ip, now)
    }

    /// Removes at clock reading `now` every entry that is no longer
    /// fresh.
    pub fn clean_up_at(&mut self, now: u128)
        ensures
            final(self)@ == old(self)@.sweep_at(now),
    {
        retain_fresh(&mut self.entries, now, self.timeout);
    }

    /// Removes every entry that is no longer fresh at the current clock
    /// reading.
    pub fn clean_up(&mut self)
        ensures
            exists|now: u128| final(self)@ == old(self)@.sweep_at(now),
    {
        let now = self.now();
        self.clean_up_at(now);
    }

    /// Forgets `ip`, and returns the MAC address that was held for it.
    pub fn remove(&mut self, ip: &Ipv4Addr) -> (r: Option<MacAddr>)
        ensures
            r == old(self)@.mac_of(*ip),
            final(self)@ == old(self)@.remove(*ip),
    {
        let key: u32 = ip.bits;
        match self.entries.remove(&key) {
            Some(entry) => Some(entry.mac),
            None => None,
        }
    }
}

/// The mathematical content of an [`ArpModule`].
pub struct ArpModuleView {
    pub cache: ArpCacheView,
    pub our_ip: Ipv4Addr,
    pub our_mac: MacAddr,
}

impl ArpModuleView {
    /// Whether `arp` asks for the local address: only such a message is
    /// answered.
    pub open spec fn is_for_us(self, arp: ArpPacketView) -> bool {
        ArpOperation::of_code(arp.operation) == Some(ArpOperation::Request) && arp.target_ip
            == self.our_ip
    }

    /// The bytes sent in answer to `arp`, if any: the reply to a request
    /// for the local address, and nothing otherwise.
    pub open spec fn response(self, arp: ArpPacketView) -> Option<Seq<u8>> {
        if self.is_for_us(arp) {
            Some(arp.reply(self.our_mac@).to_bytes())
        } else {
            None
        }
    }

    /// The module after it saw `arp` from `sender_mac` at time `now`:
    /// the sender is learned, whatever the message asked.
    pub open spec fn learn_at(self, sender_ip: Ipv4Addr, sender_mac: MacAddr, now: u128) -> ArpModuleView {
        ArpModuleView { cache: self.cache.insert_at(sender_ip, sender_mac, now), ..self }
    }
}

/// The ARP side of one interface: its own addresses and what it has
/// learned of its neighbours.
#[derive(Debug)]
pub struct ArpModule {
    cache: ArpCache,
    our_ip: Ipv4Addr,
    our_mac: MacAddr,
}

impl View for ArpModule {
    type V = ArpModuleView;

    closed spec fn view(&self) -> ArpModuleView {
        ArpModuleView { cache: self.cache@, our_ip: self.our_ip, our_mac: self.our_mac }
    }
}

impl ArpModule {
    /// The module for the interface at `our_ip` with `our_mac`. It knows
    /// no neighbour yet, and forgets one after 300 seconds.
    pub fn new(our_ip: Ipv4Addr, our_mac: MacAddr) -> (r: Self)
        ensures
            r@.our_ip == our_ip,
            r@.our_mac == our_mac,
            r@.cache.entries == Map::<u32, ArpEntry>::empty(),
            r@.cache.timeout == ARP_CACHE_TIMEOUT_NANOS,
    {
        Self { cache: ArpCache::new(ARP_CACHE_TIMEOUT_NANOS), our_ip, our_mac }
    }

    /// The cache's clock: nanoseconds since the module was made.
    pub fn now(&self) -> (now: u128) {
        self.cache.now()
    }

    /// The MAC address of the interface.
    pub fn our_mac(&self) -> (r: MacAddr)
        ensures
            r == self@.our_mac,
    {
        self.our_mac
    }

    /// The IPv4 address of the interface.
    pub fn our_ip(&self) -> (r: Ipv4Addr)
        ensures
            r == self@.our_ip,
    {
        self.our_ip
    }

    /// Handles a message seen at clock reading `now`. The sender is
    /// always learned; a request for the local address is answered with
    /// the wire form of the reply, every other message with nothing.
    pub fn handle_packet_at(&mut self, arp: &ArpPacket, now: u128) -> (r: Option<Vec<u8>>)
        ensures
            final(self)@ == old(self)@.learn_at(arp.sender_ip, arp.sender_mac, now),
            match r {
                Some(bytes) => old(self)@.response(arp@) == Some(bytes@),
                None => old(self)@.response(arp@) is None,
            },
    {
        self.cache.insert_at(arp.sender_ip, arp.sender_mac, now);
        let for_us = match ArpOperation::from_u16(arp.operation) {
            Some(ArpOperation::Request) => arp.target_ip == self.our_ip,
            _ => false,
        };
        if for_us {
            let reply = ArpPacket::build_reply(arp, self.our_mac);
            return Some(reply.to_bytes());
        }
        None
    }

    /// Handles a message seen now. The sender is always learned; a
    /// request for the local address is answered with the wire form of
    /// the reply, every other message with nothing.
    pub fn handle_packet(&mut self, arp: &ArpPacket) -> (r: Option<Vec<u8>>)
        ensures
            exists|now: u128|
                final(self)@ == old(self)@.learn_at(arp.sender_ip, arp.sender_mac, now),
            final(self)@.cache.mac_of(arp.sender_ip) == Some(arp.sender_mac),
            match r {
                Some(bytes) => old(self)@.response(arp@) == Some(bytes@),
                None => old(self)@.response(arp@) is None,
            },
    {
        let now = self.cache.now();
        self.handle_packet_at(arp, now)
    }

    /// The MAC address known for `ip` at clock reading `now`. Nothing is
    /// asked of the network: an address that is not in the cache, or no
    /// longer fresh, gives `None`.
    pub fn resolve_at(&mut self, ip: Ipv4Addr, now: u128) -> (r: Option<MacAddr>)
        ensures
            r == old(self)@.cache.lookup_at(ip, now),
            final(self)@ == (ArpModuleView {
                cache: old(self)@.cache.after_lookup(ip, now),
                ..old(self)@
            }),
    {
        self.cache.lookup_at(&ip, now)
    }

    /// The MAC address known for `ip` now. Nothing is asked of the
    /// network: an address that is not in the cache, or no longer fresh,
    /// gives `None`.
    pub fn resolve(&mut self, ip: Ipv4Addr) -> (r: Option<MacAddr>)
        ensures
            exists|now: u128|
                r == old(self)@.cache.lookup_at(ip, now) && final(self)@ == (ArpModuleView {
                    cache: old(self)@.cache.after_lookup(ip, now),
                    ..old(self)@
                }),
            !old(self)@.cache.contains(ip) ==> r is None && final(self)@ == old(self)@,
    {
        let now = self.cache.now();
        self.resolve_at(ip, now)
    }
}

} // verus!
