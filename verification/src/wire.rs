//! Byte-level helpers shared by the decoders: big-endian and little-endian
//! integer fields read out of a byte buffer.

use vstd::prelude::*;

verus! {

/// The big-endian 16-bit value stored at offset `i` of `s`.
pub open spec fn be16_at(s: Seq<u8>, i: int) -> u16
    recommends
        0 <= i,
        i + 2 <= s.len(),
{
    (s[i] * 0x100 + s[i + 1]) as u16
}

/// The big-endian 32-bit value stored at offset `i` of `s`.
pub open spec fn be32_at(s: Seq<u8>, i: int) -> u32
    recommends
        0 <= i,
        i + 4 <= s.len(),
{
    (s[i] * 0x100_0000 + s[i + 1] * 0x1_0000 + s[i + 2] * 0x100 + s[i + 3]) as u32
}

/// The little-endian 16-bit value stored at offset `i` of `s`.
pub open spec fn le16_at(s: Seq<u8>, i: int) -> u16
    recommends
        0 <= i,
        i + 2 <= s.len(),
{
    (s[i + 1] * 0x100 + s[i]) as u16
}

/// Reads the big-endian 16-bit field at offset `i` of `b`.
pub fn read_be16(b: &[u8], i: usize) -> (r: u16)
    requires
        i + 2 <= b.len(),
    ensures
        r == be16_at(b@, i as int),
{
    (b[i] as u16) * 0x100 + (b[i + 1] as u16)
}

/// Reads the big-endian 32-bit field at offset `i` of `b`.
pub fn read_be32(b: &[u8], i: usize) -> (r: u32)
    requires
        i + 4 <= b.len(),
    ensures
        r == be32_at(b@, i as int),
{
    (b[i] as u32) * 0x100_0000 + (b[i + 1] as u32) * 0x1_0000 + (b[i + 2] as u32) * 0x100 + (b[
        i + 3
    ] as u32)
}

/// Reads the little-endian 16-bit field at offset `i` of `b`.
pub fn read_le16(b: &[u8], i: usize) -> (r: u16)
    requires
        i + 2 <= b.len(),
    ensures
        r == le16_at(b@, i as int),
{
    (b[i + 1] as u16) * 0x100 + (b[i] as u16)
}

} // verus!
