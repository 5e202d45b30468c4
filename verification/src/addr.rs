//! Link-layer and network-layer addresses.

use vstd::prelude::*;

verus! {

/// A 6-byte physical (MAC) address.
pub type MacAddr = [u8; 6];

/// An IPv4 address: four octets, held as the 32-bit number they spell in
/// network byte order.
#[derive(Debug, Clone, Copy, PartialEq, Eq, Hash, Structural)]
pub struct Ipv4Addr {
    pub bits: u32,
}

impl Ipv4Addr {
    /// The address `a.b.c.d`.
    pub open spec fn from_octets(a: u8, b: u8, c: u8, d: u8) -> Ipv4Addr {
        Ipv4Addr { bits: (a as int * 0x100_0000 + b as int * 0x1_0000 + c as int * 0x100 + d as int) as u32 }
    }

    /// The four octets of the address, first octet first.
    pub open spec fn octets_spec(self) -> Seq<u8> {
        seq![
            (self.bits / 0x100_0000) as u8,
            (self.bits / 0x1_0000 % 0x100) as u8,
            (self.bits / 0x100 % 0x100) as u8,
            (self.bits % 0x100) as u8,
        ]
    }

    /// The address whose octets are the four bytes of `data` from `at` on.
    pub open spec fn at(data: Seq<u8>, at: int) -> Ipv4Addr {
        Self::from_octets(data[at], data[at + 1], data[at + 2], data[at + 3])
    }

    /// The octets of `a.b.c.d` are `a`, `b`, `c`, `d`.
    pub proof fn lemma_octets_of_new(a: u8, b: u8, c: u8, d: u8)
        ensures
            Self::from_octets(a, b, c, d).octets_spec() == seq![a, b, c, d],
    {
        let x: u32 = Self::from_octets(a, b, c, d).bits;
        let low3: int = b as int * 0x1_0000 + c as int * 0x100 + d as int;
        let low2: int = c as int * 0x100 + d as int;
        assert(x == a as int * 0x100_0000 + low3 && 0 <= low3 < 0x100_0000);
        assert(x / 0x100_0000 == a as int);
        assert(x == (a as int * 0x100 + b as int) * 0x1_0000 + low2 && 0 <= low2 < 0x1_0000);
        assert(x / 0x1_0000 == a as int * 0x100 + b as int);
        assert(x == (a as int * 0x1_0000 + b as int * 0x100 + c as int) * 0x100 + d as int);
        assert(x / 0x100 == a as int * 0x1_0000 + b as int * 0x100 + c as int);
        assert(Self::from_octets(a, b, c, d).octets_spec() =~= seq![a, b, c, d]);
    }

    /// An address is the one spelled by its own octets.
    pub proof fn lemma_new_of_octets(self)
        ensures
            self.octets_spec().len() == 4,
            Self::at(self.octets_spec(), 0) == self,
    {
    }

    /// The address `a.b.c.d`.
    pub fn new(a: u8, b: u8, c: u8, d: u8) -> (r: Ipv4Addr)
        ensures
            r == Self::from_octets(a, b, c, d),
            r.octets_spec() == seq![a, b, c, d],
    {
        proof {
            Self::lemma_octets_of_new(a, b, c, d);
        }
        Ipv4Addr {
            bits: (a as u32) * 0x100_0000 + (b as u32) * 0x1_0000 + (c as u32) * 0x100 + (d as u32),
        }
    }

    /// The four octets of the address, first octet first.
    pub fn octets(&self) -> (r: [u8; 4])
        ensures
            r@ == self.octets_spec(),
    {
        let r: [u8; 4] = [
            (self.bits / 0x100_0000) as u8,
            (self.bits / 0x1_0000 % 0x100) as u8,
            (self.bits / 0x100 % 0x100) as u8,
            (self.bits % 0x100) as u8,
        ];
        assert(r@ =~= self.octets_spec());
        r
    }
}

/// The MAC address spelled by the six bytes of `data` from `at` on.
pub open spec fn mac_of_bytes(data: Seq<u8>, at: int) -> MacAddr {
    [data[at], data[at + 1], data[at + 2], data[at + 3], data[at + 4], data[at + 5]]
}

/// The MAC address held in the six bytes of `data` from `at` on.
pub fn mac_at(data: &[u8], at: usize) -> (m: MacAddr)
    requires
        at + 6 <= data@.len(),
    ensures
        m@ == data@.subrange(at as int, at + 6),
        m == mac_of_bytes(data@, at as int),
{
    let m: MacAddr = [
        data[at],
        data[at + 1],
        data[at + 2],
        data[at + 3],
        data[at + 4],
        data[at + 5],
    ];
    assert(m@ =~= data@.subrange(at as int, at + 6));
    assert(m =~= mac_of_bytes(data@, at as int));
    m
}

/// The IPv4 address held in the four bytes of `data` from `at` on.
pub fn ipv4_at(data: &[u8], at: usize) -> (ip: Ipv4Addr)
    requires
        at + 4 <= data@.len(),
    ensures
        ip == Ipv4Addr::at(data@, at as int),
{
    Ipv4Addr::new(data[at], data[at + 1], data[at + 2], data[at + 3])
}

/// True exactly when the two MAC addresses hold the same six bytes.
pub fn mac_eq(a: &MacAddr, b: &MacAddr) -> (same: bool)
    ensures
        same == (a@ == b@),
{
    let same = a[0] == b[0] && a[1] == b[1] && a[2] == b[2] && a[3] == b[3] && a[4] == b[4]
        && a[5] == b[5];
    assert(same == (a@ =~= b@));
    same
}

} // verus!
