//! Little-endian encoding of the header's 16-bit and 32-bit fields.

use vstd::prelude::*;

verus! {

/// The two bytes of a 16-bit value in little-endian order.
pub open spec fn le16(v: u16) -> Seq<u8> {
    seq![(v % 256) as u8, (v / 256) as u8]
}

/// The four bytes of a 32-bit value in little-endian order.
pub open spec fn le32(v: u32) -> Seq<u8> {
    seq![
        (v % 256) as u8,
        ((v / 256) % 256) as u8,
        ((v / 65536) % 256) as u8,
        ((v / 16777216) % 256) as u8,
    ]
}

/// The value a little-endian 16-bit field holds, low byte first.
pub open spec fn le16_val(b0: u8, b1: u8) -> int {
    b0 + b1 * 256
}

/// The value a little-endian 32-bit field holds, low byte first.
pub open spec fn le32_val(b0: u8, b1: u8, b2: u8, b3: u8) -> int {
    b0 + b1 * 256 + b2 * 65536 + b3 * 16777216
}

/// Decoding the two little-endian bytes of a 16-bit value gives the value back.
pub proof fn lemma_le16_round_trip(v: u16)
    ensures
        le16_val(le16(v)[0], le16(v)[1]) == v,
{
    assert(v % 256 + v / 256 * 256 == v) by (bit_vector);
}

/// Decoding the four little-endian bytes of a 32-bit value gives the value back.
pub proof fn lemma_le32_round_trip(v: u32)
    ensures
        le32_val(le32(v)[0], le32(v)[1], le32(v)[2], le32(v)[3]) == v,
{
    assert(v % 256 + v / 256 % 256 * 256 + v / 65536 % 256 * 65536 + v / 16777216 % 256
        * 16777216 == v) by (bit_vector);
}

/// Appends the two little-endian bytes of `v`.
pub fn push_le16(out: &mut Vec<u8>, v: u16)
    ensures
        final(out)@ == old(out)@ + le16(v),
{
    out.push((v % 256) as u8);
    out.push((v / 256) as u8);
    assert(out@ =~= old(out)@ + le16(v));
}

/// Appends the four little-endian bytes of `v`.
pub fn push_le32(out: &mut Vec<u8>, v: u32)
    ensures
        final(out)@ == old(out)@ + le32(v),
{
    out.push((v % 256) as u8);
    out.push(((v / 256) % 256) as u8);
    out.push(((v / 65536) % 256) as u8);
    out.push(((v / 16777216) % 256) as u8);
    assert(out@ =~= old(out)@ + le32(v));
}

/// Reads the 16-bit value of the two little-endian bytes at `i`.
pub fn read_le16(b: &Vec<u8>, i: usize) -> (v: u16)
    requires
        i + 2 <= b@.len(),
    ensures
        v == le16_val(b@[i as int], b@[i as int + 1]),
{
    let n: usize = b.len();
    assert(i + 2 <= n);
    (b[i] as u16) + (b[i + 1] as u16) * 256
}

/// Reads the 32-bit value of the four little-endian bytes at `i`.
pub fn read_le32(b: &Vec<u8>, i: usize) -> (v: u32)
    requires
        i + 4 <= b@.len(),
    ensures
        v == le32_val(b@[i as int], b@[i as int + 1], b@[i as int + 2], b@[i as int + 3]),
{
    let n: usize = b.len();
    assert(i + 4 <= n);
    (b[i] as u32) + (b[i + 1] as u32) * 256 + (b[i + 2] as u32) * 65536 + (b[i + 3] as u32)
        * 16777216
}

} // verus!
