//! Big- and little-endian byte layouts shared by the wire formats.
use vstd::prelude::*;

verus! {

/// The big-endian bytes of a 32-bit value.
pub open spec fn be32(v: u32) -> Seq<u8> {
    seq![(v >> 24u32) as u8, (v >> 16u32) as u8, (v >> 8u32) as u8, v as u8]
}

/// The value of four big-endian bytes.
pub open spec fn from_be32(b0: u8, b1: u8, b2: u8, b3: u8) -> u32 {
    ((b0 as u32) << 24u32) | ((b1 as u32) << 16u32) | ((b2 as u32) << 8u32) | (b3 as u32)
}

/// Reading back the big-endian bytes of a value gives the value.
pub proof fn lemma_be32_round_trip(v: u32)
    ensures
        from_be32((v >> 24u32) as u8, (v >> 16u32) as u8, (v >> 8u32) as u8, v as u8) == v,
{
    assert(from_be32((v >> 24u32) as u8, (v >> 16u32) as u8, (v >> 8u32) as u8, v as u8) == v)
        by (bit_vector);
}

/// Writes the big-endian bytes of `v` at `at`.
pub fn put_be32(out: &mut [u8], at: usize, v: u32)
    requires
        at + 4 <= old(out)@.len(),
    ensures
        final(out)@ == old(out)@.take(at as int) + be32(v) + old(out)@.skip(at + 4),
{
    out[at] = (v >> 24u32) as u8;
    out[at + 1] = (v >> 16u32) as u8;
    out[at + 2] = (v >> 8u32) as u8;
    out[at + 3] = v as u8;
    assert(final(out)@ =~= old(out)@.take(at as int) + be32(v) + old(out)@.skip(at + 4));
}

/// Reads the big-endian value of the four bytes at `at`.
pub fn get_be32(bytes: &[u8], at: usize) -> (r: u32)
    requires
        at + 4 <= bytes@.len(),
    ensures
        r == from_be32(bytes@[at as int], bytes@[at + 1], bytes@[at + 2], bytes@[at + 3]),
{
    ((bytes[at] as u32) << 24u32) | ((bytes[at + 1] as u32) << 16u32) | ((bytes[at + 2] as u32) << 8u32)
        | (bytes[at + 3] as u32)
}

/// The little-endian bytes of a 16-bit value.
pub open spec fn le16(v: u16) -> Seq<u8> {
    seq![v as u8, (v >> 8u16) as u8]
}

/// The little-endian bytes of a 32-bit value.
pub open spec fn le32(v: u32) -> Seq<u8> {
    seq![v as u8, (v >> 8u32) as u8, (v >> 16u32) as u8, (v >> 24u32) as u8]
}

/// The value of two little-endian bytes.
pub open spec fn from_le16(b0: u8, b1: u8) -> u16 {
    (b0 as u16) | ((b1 as u16) << 8u16)
}

/// The value of four little-endian bytes.
pub open spec fn from_le32(b0: u8, b1: u8, b2: u8, b3: u8) -> u32 {
    (b0 as u32) | ((b1 as u32) << 8u32) | ((b2 as u32) << 16u32) | ((b3 as u32) << 24u32)
}

/// Reading back the little-endian bytes of a 16-bit value gives the value.
pub proof fn lemma_le16_round_trip(v: u16)
    ensures
        from_le16(le16(v)[0], le16(v)[1]) == v,
{
    assert(from_le16(v as u8, (v >> 8u16) as u8) == v) by (bit_vector);
}

/// Reading back the little-endian bytes of a 32-bit value gives the value.
pub proof fn lemma_le32_round_trip(v: u32)
    ensures
        from_le32(le32(v)[0], le32(v)[1], le32(v)[2], le32(v)[3]) == v,
{
    assert(from_le32(v as u8, (v >> 8u32) as u8, (v >> 16u32) as u8, (v >> 24u32) as u8) == v)
        by (bit_vector);
}

/// Writes the little-endian bytes of `v` at `at`.
pub fn put_le16(out: &mut [u8], at: usize, v: u16)
    requires
        at + 2 <= old(out)@.len(),
    ensures
        final(out)@ == old(out)@.take(at as int) + le16(v) + old(out)@.skip(at + 2),
{
    out[at] = v as u8;
    out[at + 1] = (v >> 8u16) as u8;
    assert(final(out)@ =~= old(out)@.take(at as int) + le16(v) + old(out)@.skip(at + 2));
}

/// Writes the little-endian bytes of `v` at `at`.
pub fn put_le32(out: &mut [u8], at: usize, v: u32)
    requires
        at + 4 <= old(out)@.len(),
    ensures
        final(out)@ == old(out)@.take(at as int) + le32(v) + old(out)@.skip(at + 4),
{
    out[at] = v as u8;
    out[at + 1] = (v >> 8u32) as u8;
    out[at + 2] = (v >> 16u32) as u8;
    out[at + 3] = (v >> 24u32) as u8;
    assert(final(out)@ =~= old(out)@.take(at as int) + le32(v) + old(out)@.skip(at + 4));
}

} // verus!
