//! Little-endian integer fields read out of on-disk byte records.
use vstd::prelude::*;

verus! {

/// The 16-bit little-endian value stored at `b[at..at + 2]`.
pub open spec fn le_u16(b: Seq<u8>, at: int) -> int {
    b[at] + b[at + 1] * 0x100
}

/// The 32-bit little-endian value stored at `b[at..at + 4]`.
pub open spec fn le_u32(b: Seq<u8>, at: int) -> int {
    le_u16(b, at) + le_u16(b, at + 2) * 0x1_0000
}

/// The 64-bit little-endian value stored at `b[at..at + 8]`.
pub open spec fn le_u64(b: Seq<u8>, at: int) -> int {
    le_u32(b, at) + le_u32(b, at + 4) * 0x1_0000_0000
}

pub fn read_u16_le(b: &[u8], at: usize) -> (r: u16)
    requires
        at + 2 <= b@.len(),
    ensures
        r == le_u16(b@, at as int),
{
    b[at] as u16 + b[at + 1] as u16 * 0x100
}

pub fn read_u32_le(b: &[u8], at: usize) -> (r: u32)
    requires
        at + 4 <= b@.len(),
    ensures
        r == le_u32(b@, at as int),
{
    let len = b.len();
    assert(at + 4 <= len);
    let lo = read_u16_le(b, at) as u32;
    let hi = read_u16_le(b, at + 2) as u32;
    lo + hi * 0x1_0000
}

pub fn read_u64_le(b: &[u8], at: usize) -> (r: u64)
    requires
        at + 8 <= b@.len(),
    ensures
        r == le_u64(b@, at as int),
{
    let len = b.len();
    assert(at + 8 <= len);
    let lo = read_u32_le(b, at) as u64;
    let hi = read_u32_le(b, at + 4) as u64;
    lo + hi * 0x1_0000_0000
}

} // verus!
