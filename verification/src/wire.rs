//! Little-endian integers in a packed byte layout.

use vstd::prelude::*;

verus! {

/// The value of the two bytes of `s` at `off`, least significant first.
pub open spec fn le_u16(s: Seq<u8>, off: int) -> int {
    s[off] + 0x100 * s[off + 1]
}

/// The value of the four bytes of `s` at `off`, least significant first.
pub open spec fn le_u32(s: Seq<u8>, off: int) -> int {
    le_u16(s, off) + 0x1_0000 * le_u16(s, off + 2)
}

/// The value of the eight bytes of `s` at `off`, least significant first.
pub open spec fn le_u64(s: Seq<u8>, off: int) -> int {
    le_u32(s, off) + 0x1_0000_0000 * le_u32(s, off + 4)
}

pub fn read_u16(bytes: &[u8], off: usize) -> (v: u16)
    requires
        off + 2 <= bytes.len(),
    ensures
        v == le_u16(bytes@, off as int),
{
    let lo: u16 = bytes[off] as u16;
    let hi: u16 = bytes[off + 1] as u16;
    lo + 0x100 * hi
}

pub fn read_u32(bytes: &[u8], off: usize) -> (v: u32)
    requires
        off + 4 <= bytes.len(),
    ensures
        v == le_u32(bytes@, off as int),
{
    let lo: u32 = read_u16(bytes, off) as u32;
    let hi: u32 = read_u16(bytes, off + 2) as u32;
    lo + 0x1_0000 * hi
}

pub fn read_u64(bytes: &[u8], off: usize) -> (v: u64)
    requires
        off + 8 <= bytes.len(),
    ensures
        v == le_u64(bytes@, off as int),
{
    let lo: u64 = read_u32(bytes, off) as u64;
    let hi: u64 = read_u32(bytes, off + 4) as u64;
    lo + 0x1_0000_0000 * hi
}

} // verus!
