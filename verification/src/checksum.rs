//! The Internet checksum: the one's complement of the one's-complement sum
//! of a buffer's 16-bit big-endian words. IPv4, ICMP and UDP all use it.

use vstd::prelude::*;
use crate::bytes::{be16, hi_byte, hi_spec, lo_byte, lo_spec};

verus! {

/// Word number `i` of `data`: bytes `2i` and `2i + 1`, high byte first.
/// A final odd byte is the high byte of a word padded with zero.
pub open spec fn word_at(data: Seq<u8>, i: int) -> nat {
    if 0 <= i && 2 * i + 1 < data.len() {
        (data[2 * i] as nat) * 256 + (data[2 * i + 1] as nat)
    } else if 0 <= i && 2 * i < data.len() {
        (data[2 * i] as nat) * 256
    } else {
        0
    }
}

/// How many 16-bit words `data` holds, a final odd byte counted as one.
pub open spec fn word_count(data: Seq<u8>) -> nat {
    ((data.len() + 1) / 2) as nat
}

/// The plain sum of the first `n` words of `data`.
pub open spec fn word_sum(data: Seq<u8>, n: nat) -> nat
    decreases n,
{
    if n == 0 {
        0
    } else {
        word_sum(data, (n - 1) as nat) + word_at(data, n - 1)
    }
}

/// Folds every carry out of bit 16 back into the low 16 bits until none
/// remains.
pub open spec fn fold16(sum: nat) -> nat
    decreases sum,
{
    if sum < 0x10000 {
        sum
    } else {
        fold16(sum % 0x10000 + sum / 0x10000)
    }
}

/// The one's-complement sum of the 16-bit words of `data`.
pub open spec fn ones_complement_sum(data: Seq<u8>) -> nat {
    fold16(word_sum(data, word_count(data)))
}

/// The Internet checksum of `data`.
pub open spec fn internet_checksum(data: Seq<u8>) -> u16 {
    (0xFFFF - ones_complement_sum(data)) as u16
}

/// A buffer carries a correct checksum when its one's-complement sum,
/// checksum field included, is all ones.
pub open spec fn checksum_ok(data: Seq<u8>) -> bool {
    ones_complement_sum(data) == 0xFFFF
}

/// `data` with the 16-bit field at `at` replaced by `value`.
pub open spec fn with_field(data: Seq<u8>, at: int, value: u16) -> Seq<u8> {
    data.update(at, hi_spec(value)).update(at + 1, lo_spec(value))
}

/// `data` with the checksum field at `at` filled in: the field is zeroed,
/// the checksum of the whole buffer is taken, and written into the field.
pub open spec fn with_checksum_at(data: Seq<u8>, at: int) -> Seq<u8> {
    with_field(data, at, internet_checksum(with_field(data, at, 0)))
}

/// Folding leaves zero alone and maps every positive sum to the value in
/// `1..=0xFFFF` that is congruent to it modulo `0xFFFF`.
pub proof fn lemma_fold16_closed_form(sum: nat)
    ensures
        fold16(sum) <= 0xFFFF,
        sum == 0 ==> fold16(sum) == 0,
        sum > 0 ==> fold16(sum) == (sum - 1) % 0xFFFF + 1,
    decreases sum,
{
    if sum >= 0x10000 {
        let next = (sum % 0x10000 + sum / 0x10000) as nat;
        lemma_fold16_closed_form(next);
        assert((next - 1) % 0xFFFF == (sum - 1) % 0xFFFF) by {
            let q = sum / 0x10000;
            assert(sum - 1 == (next - 1) + 0xFFFF * q);
            vstd::arithmetic::div_mod::lemma_mod_multiples_vanish(q as int, next - 1, 0xFFFF);
        }
    }
}

/// Folding may be done early: folding a partial sum before adding more
/// words does not change the folded total.
pub proof fn lemma_fold16_add(a: nat, b: nat)
    ensures
        fold16(a + b) == fold16(fold16(a) + b),
{
    lemma_fold16_closed_form(a);
    lemma_fold16_closed_form(a + b);
    lemma_fold16_closed_form(fold16(a) + b);
    if a > 0 {
        let q = (a - 1) / 0xFFFF;
        let f = fold16(a);
        assert(a - 1 == 0xFFFF * q + (a - 1) % 0xFFFF);
        assert(a + b - 1 == (f + b - 1) + 0xFFFF * q);
        vstd::arithmetic::div_mod::lemma_mod_multiples_vanish(q as int, f + b - 1, 0xFFFF);
    }
}

/// Writing `value` into a zero word adds `value` to every sum that covers
/// that word, and leaves the others alone.
pub proof fn lemma_word_sum_with_field(data: Seq<u8>, k: int, value: u16, n: nat)
    requires
        0 <= k,
        2 * k + 1 < data.len(),
        data[2 * k] == 0,
        data[2 * k + 1] == 0,
    ensures
        word_sum(with_field(data, 2 * k, value), n) == word_sum(data, n) + if k < n {
            value as nat
        } else {
            0
        },
    decreases n,
{
    if n > 0 {
        lemma_word_sum_with_field(data, k, value, (n - 1) as nat);
        let after = with_field(data, 2 * k, value);
        if n - 1 == k {
            assert(word_at(after, k) == value as nat);
            assert(word_at(data, k) == 0);
        } else {
            assert(word_at(after, n - 1) == word_at(data, n - 1));
        }
    }
}

/// A buffer whose checksum field holds the checksum taken with that field
/// zeroed sums to all ones: it passes validation, and its own checksum is
/// zero. The field must be word-aligned and lie inside the buffer.
pub proof fn lemma_embedded_checksum_sums_to_ones(data: Seq<u8>, at: int)
    requires
        0 <= at,
        at % 2 == 0,
        at + 1 < data.len(),
    ensures
        checksum_ok(with_checksum_at(data, at)),
        internet_checksum(with_checksum_at(data, at)) == 0,
{
    let k = at / 2;
    let zeroed = with_field(data, at, 0);
    let c = internet_checksum(zeroed);
    let n = word_count(data);
    let s = word_sum(zeroed, n);
    assert(with_field(zeroed, at, c) =~= with_field(data, at, c));
    assert(word_count(zeroed) == n);
    assert(word_count(with_checksum_at(data, at)) == n);
    lemma_word_sum_with_field(zeroed, k, c, n);
    lemma_fold16_closed_form(s);
    lemma_fold16_closed_form(s + c as nat);
    if s > 0 {
        let q = (s - 1) / 0xFFFF;
        assert(s - 1 == 0xFFFF * q + (s - 1) % 0xFFFF);
        assert(s + c - 1 == 0xFFFE + 0xFFFF * q);
        vstd::arithmetic::div_mod::lemma_mod_multiples_vanish(q as int, 0xFFFE, 0xFFFF);
    }
}

/// The checksum depends on the bytes alone: buffers that hold the same
/// bytes have the same checksum, however often it is taken.
pub proof fn lemma_checksum_deterministic(a: Seq<u8>, b: Seq<u8>)
    requires
        a.len() == b.len(),
        forall|i: int| 0 <= i < a.len() ==> a[i] == b[i],
    ensures
        internet_checksum(a) == internet_checksum(b),
        checksum_ok(a) == checksum_ok(b),
{
    assert(a =~= b);
}

/// Computes the Internet checksum of `data`.
pub fn checksum(data: &[u8]) -> (r: u16)
    ensures
        r == internet_checksum(data@),
{
    let n: usize = data.len();
    let mut acc: u32 = 0;
    let mut i: usize = 0;
    while i < n
        invariant
            n == data@.len(),
            i <= n,
            i % 2 == 0 || i == n,
            acc <= 0xFFFF,
            acc == fold16(word_sum(data@, ((i + 1) / 2) as nat)),
        decreases n - i,
    {
        let word: u32 = if n - i >= 2 {
            be16(data[i], data[i + 1]) as u32
        } else {
            (data[i] as u32) * 256
        };
        let sum: u32 = acc + word;
        proof {
            let before = word_sum(data@, (i / 2) as nat);
            assert(word == word_at(data@, i as int / 2));
            assert(word_sum(data@, (i / 2 + 1) as nat) == before + word);
            lemma_fold16_add(before, word as nat);
            assert(sum & 0xFFFF == sum % 0x10000) by (bit_vector);
            assert(sum >> 16 == sum / 0x10000) by (bit_vector);
            assert(fold16(sum as nat) == if sum >= 0x10000 {
                fold16((sum % 0x10000 + sum / 0x10000) as nat)
            } else {
                sum as nat
            });
        }
        acc = if sum >> 16 != 0 {
            (sum & 0xFFFF) + (sum >> 16)
        } else {
            sum
        };
        i = if n - i >= 2 {
            i + 2
        } else {
            n
        };
    }
    (0xFFFF - acc) as u16
}

/// Checks a buffer that carries its own checksum: true exactly when the
/// one's-complement sum over the whole buffer is all ones.
pub fn verify_checksum(data: &[u8]) -> (ok: bool)
    ensures
        ok == checksum_ok(data@),
{
    proof {
        lemma_fold16_closed_form(word_sum(data@, word_count(data@)));
    }
    checksum(data) == 0
}

/// Overwrites the 16-bit field at `at` with the checksum of the buffer
/// taken while that field is zero. Where the field is word-aligned, the
/// buffer passes validation afterwards.
pub fn embed_checksum(buf: &mut Vec<u8>, at: usize)
    requires
        at + 1 < old(buf)@.len(),
    ensures
        final(buf)@ == with_checksum_at(old(buf)@, at as int),
        at % 2 == 0 ==> checksum_ok(final(buf)@),
{
    proof {
        if at % 2 == 0 {
            lemma_embedded_checksum_sums_to_ones(buf@, at as int);
        }
    }
    assert(at + 1 < buf.len());
    let next: usize = at + 1;
    buf[at] = 0;
    buf[next] = 0;
    let c: u16 = checksum(buf.as_slice());
    buf[at] = hi_byte(c);
    buf[next] = lo_byte(c);
    assert(buf@ =~= with_checksum_at(old(buf)@, at as int));
}

} // verus!
