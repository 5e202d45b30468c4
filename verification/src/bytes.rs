//! Network byte order: 16-bit fields as two bytes, high byte first.

use vstd::prelude::*;

verus! {

/// The 16-bit value whose big-endian encoding is `hi`, `lo`.
pub open spec fn be16_spec(hi: u8, lo: u8) -> u16 {
    (hi as int * 256 + lo as int) as u16
}

/// The first (most significant) byte of the big-endian encoding of `x`.
pub open spec fn hi_spec(x: u16) -> u8 {
    (x / 256) as u8
}

/// The second (least significant) byte of the big-endian encoding of `x`.
pub open spec fn lo_spec(x: u16) -> u8 {
    (x % 256) as u8
}

/// The two bytes of the big-endian encoding of `x`.
pub open spec fn be16_bytes(x: u16) -> Seq<u8> {
    seq![hi_spec(x), lo_spec(x)]
}

/// The 16-bit big-endian field of `data` that starts at `at`.
pub open spec fn be16_at(data: Seq<u8>, at: int) -> u16 {
    be16_spec(data[at], data[at + 1])
}

/// Decoding the encoding of `x` gives `x` back.
pub proof fn lemma_be16_of_bytes(x: u16)
    ensures
        be16_spec(hi_spec(x), lo_spec(x)) == x,
{
}

/// Encoding the value decoded from `hi`, `lo` gives the two bytes back.
pub proof fn lemma_bytes_of_be16(hi: u8, lo: u8)
    ensures
        hi_spec(be16_spec(hi, lo)) == hi,
        lo_spec(be16_spec(hi, lo)) == lo,
{
}

/// Decodes a big-endian 16-bit value from its two bytes.
pub fn be16(hi: u8, lo: u8) -> (r: u16)
    ensures
        r == be16_spec(hi, lo),
        r == hi as int * 256 + lo as int,
{
    let h: u16 = hi as u16;
    let l: u16 = lo as u16;
    assert((h << 8) | l == h * 256 + l) by (bit_vector)
        requires
            h < 256,
            l < 256,
    ;
    (h << 8) | l
}

/// The high byte of the big-endian encoding of `x`.
pub fn hi_byte(x: u16) -> (r: u8)
    ensures
        r == hi_spec(x),
{
    assert(x >> 8 == x / 256) by (bit_vector);
    (x >> 8) as u8
}

/// The low byte of the big-endian encoding of `x`.
pub fn lo_byte(x: u16) -> (r: u8)
    ensures
        r == lo_spec(x),
{
    assert(x & 0xFF == x % 256) by (bit_vector);
    (x & 0xFF) as u8
}

/// Appends the big-endian encoding of `x` to `out`.
pub fn push_be16(out: &mut Vec<u8>, x: u16)
    ensures
        final(out)@ == old(out)@ + be16_bytes(x),
{
    out.push(hi_byte(x));
    out.push(lo_byte(x));
    assert(out@ =~= old(out)@ + be16_bytes(x));
}

/// Appends a copy of `bytes` to `out`.
pub fn push_all(out: &mut Vec<u8>, bytes: &[u8])
    ensures
        final(out)@ == old(out)@ + bytes@,
{
    out.extend_from_slice(bytes);
    assert(out@ =~= old(out)@ + bytes@);
}

/// A copy of `data` from index `from` to its end.
pub fn tail_from(data: &[u8], from: usize) -> (r: Vec<u8>)
    requires
        from <= data@.len(),
    ensures
        r@ == data@.skip(from as int),
{
    let mut r: Vec<u8> = Vec::new();
    let mut i: usize = from;
    while i < data.len()
        invariant
            from <= i <= data@.len(),
            r@ == data@.subrange(from as int, i as int),
        decreases data@.len() - i,
    {
        r.push(data[i]);
        i = i + 1;
        assert(r@ =~= data@.subrange(from as int, i as int));
    }
    assert(r@ =~= data@.skip(from as int));
    r
}

} // verus!
