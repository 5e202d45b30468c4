//! What the stack computes for the network device that carries its
//! frames. The device itself, and every read and write on it, belongs to
//! the caller.

use vstd::prelude::*;
use crate::addr::Ipv4Addr;

verus! {

/// The number of one bits in the binary form of `x`.
pub open spec fn count_ones(x: nat) -> nat
    decreases x,
{
    if x == 0 {
        0
    } else {
        x % 2 + count_ones(x / 2)
    }
}

/// Two to the power `k`.
pub open spec fn two_to(k: nat) -> nat
    decreases k,
{
    if k == 0 {
        1
    } else {
        2 * two_to((k - 1) as nat)
    }
}

/// A number below two to the `k` has at most `k` one bits.
pub proof fn lemma_count_ones_bound(x: nat, k: nat)
    requires
        x < two_to(k),
    ensures
        count_ones(x) <= k,
    decreases k,
{
    if x != 0 {
        lemma_count_ones_bound(x / 2, (k - 1) as nat);
    }
}

/// A 32-bit number has at most 32 one bits.
pub proof fn lemma_count_ones_u32(x: u32)
    ensures
        count_ones(x as nat) <= 32,
{
    assert(two_to(32) == 0x1_0000_0000) by {
        reveal_with_fuel(two_to, 33);
    }
    lemma_count_ones_bound(x as nat, 32);
}

/// The prefix length that a netmask stands for: the number of one bits
/// among its 32, so that `255.255.255.0` gives 24.
pub fn netmask_to_prefix(netmask: Ipv4Addr) -> (prefix: u8)
    ensures
        prefix == count_ones(netmask.bits as nat),
        prefix <= 32,
{
    let mut rest: u32 = netmask.bits;
    let mut count: u8 = 0;
    proof {
        lemma_count_ones_u32(netmask.bits);
    }
    while rest != 0
        invariant
            count + count_ones(rest as nat) == count_ones(netmask.bits as nat),
            count_ones(netmask.bits as nat) <= 32,
        decreases rest,
    {
        if rest % 2 == 1 {
            count = count + 1;
        }
        rest = rest / 2;
    }
    count
}

} // verus!
