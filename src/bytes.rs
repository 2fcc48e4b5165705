//! Integers assembled from the bytes of a block, most significant byte first.

use vstd::prelude::*;
use crate::mmc_ioc_cmd::SDBlock;

verus! {

/// The 16-bit value of the bytes `a`, `b`, most significant first.
pub open spec fn word16(a: u8, b: u8) -> int {
    a as int * 0x100 + b as int
}

/// The 32-bit value of the bytes `a` to `d`, most significant first.
pub open spec fn word32(a: u8, b: u8, c: u8, d: u8) -> int {
    a as int * 0x100_0000 + b as int * 0x1_0000 + c as int * 0x100 + d as int
}

/// The 64-bit value of the bytes `a` to `h`, most significant first.
pub open spec fn word64(a: u8, b: u8, c: u8, d: u8, e: u8, f: u8, g: u8, h: u8) -> int {
    word32(a, b, c, d) * 0x1_0000_0000 + word32(e, f, g, h)
}

/// The little-endian 32-bit word at `offset` of `s`.
pub open spec fn le32_at(s: Seq<u8>, offset: int) -> int {
    word32(s[offset + 3], s[offset + 2], s[offset + 1], s[offset])
}

/// The little-endian 64-bit word at `offset` of `s`.
pub open spec fn le64_at(s: Seq<u8>, offset: int) -> int {
    word64(
        s[offset + 7],
        s[offset + 6],
        s[offset + 5],
        s[offset + 4],
        s[offset + 3],
        s[offset + 2],
        s[offset + 1],
        s[offset],
    )
}

/// The big-endian 32-bit word at `offset` of `s`.
pub open spec fn be32_at(s: Seq<u8>, offset: int) -> int {
    word32(s[offset], s[offset + 1], s[offset + 2], s[offset + 3])
}

/// The big-endian 16-bit word at `offset` of `s`.
pub open spec fn be16_at(s: Seq<u8>, offset: int) -> int {
    word16(s[offset], s[offset + 1])
}

pub fn nb16(val1: u8, val2: u8) -> (r: u16)
    ensures
        r == word16(val1, val2),
{
    let r = ((val1 as u16) << 8) | (val2 as u16);
    assert(((val1 as u16) << 8) | (val2 as u16) == (val1 as u16) * 256 + (val2 as u16))
        by (bit_vector);
    r
}

pub fn nb32(val1: u8, val2: u8, val3: u8, val4: u8) -> (r: u32)
    ensures
        r == word32(val1, val2, val3, val4),
{
    let r = ((val1 as u32) << 24) | ((val2 as u32) << 16) | ((val3 as u32) << 8) | (val4 as u32);
    assert(((val1 as u32) << 24) | ((val2 as u32) << 16) | ((val3 as u32) << 8) | (val4 as u32)
        == (val1 as u32) * 0x100_0000 + (val2 as u32) * 0x1_0000 + (val3 as u32) * 0x100
        + (val4 as u32)) by (bit_vector);
    r
}

pub fn nb64(
    val1: u8,
    val2: u8,
    val3: u8,
    val4: u8,
    val5: u8,
    val6: u8,
    val7: u8,
    val8: u8,
) -> (r: u64)
    ensures
        r == word64(val1, val2, val3, val4, val5, val6, val7, val8),
{
    let r = ((val1 as u64) << 56) | ((val2 as u64) << 48) | ((val3 as u64) << 40) | ((val4 as u64)
        << 32) | ((val5 as u64) << 24) | ((val6 as u64) << 16) | ((val7 as u64) << 8) | (val8 as u64);
    assert(((val1 as u64) << 56) | ((val2 as u64) << 48) | ((val3 as u64) << 40) | ((val4 as u64)
        << 32) | ((val5 as u64) << 24) | ((val6 as u64) << 16) | ((val7 as u64) << 8) | (val8 as u64)
        == (val1 as u64) * 0x100_0000_0000_0000 + (val2 as u64) * 0x1_0000_0000_0000 + (val3 as u64)
        * 0x100_0000_0000 + (val4 as u64) * 0x1_0000_0000 + (val5 as u64) * 0x100_0000 + (val6 as u64)
        * 0x1_0000 + (val7 as u64) * 0x100 + (val8 as u64)) by (bit_vector);
    r
}

/// The little-endian 32-bit word at `offset` of `block`.
pub fn nword_to_u32(block: &SDBlock, offset: usize) -> (r: u32)
    requires
        offset + 4 <= block@.len(),
    ensures
        r == le32_at(block@, offset as int),
{
    nb32(block[offset + 3], block[offset + 2], block[offset + 1], block[offset])
}

/// The little-endian 64-bit word at `offset` of `block`.
pub fn nword_to_u64(block: &SDBlock, offset: usize) -> (r: u64)
    requires
        offset + 8 <= block@.len(),
    ensures
        r == le64_at(block@, offset as int),
{
    nb64(
        block[offset + 7],
        block[offset + 6],
        block[offset + 5],
        block[offset + 4],
        block[offset + 3],
        block[offset + 2],
        block[offset + 1],
        block[offset],
    )
}

} // verus!
