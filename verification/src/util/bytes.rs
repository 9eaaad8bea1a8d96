//! Big-endian integers, as the class-file format stores them.

use vstd::prelude::*;

verus! {

/// The number that the first two bytes of `s` denote, most significant
/// byte first.
pub open spec fn u16_be(s: Seq<u8>) -> u16
    recommends
        s.len() >= 2,
{
    (s[0] as int * 0x100 + s[1] as int) as u16
}

/// The number that the first four bytes of `s` denote, most significant
/// byte first.
pub open spec fn u32_be(s: Seq<u8>) -> u32
    recommends
        s.len() >= 4,
{
    (s[0] as int * 0x100_0000 + s[1] as int * 0x1_0000 + s[2] as int * 0x100 + s[3] as int) as u32
}

/// The number that the first eight bytes of `s` denote, most significant
/// byte first.
pub open spec fn u64_be(s: Seq<u8>) -> u64
    recommends
        s.len() >= 8,
{
    (u32_be(s) as int * 0x1_0000_0000 + u32_be(s.skip(4)) as int) as u64
}

pub fn buffer_to_u8(buffer: [u8; 1]) -> (value: u8)
    ensures
        value == buffer@[0],
{
    buffer[0]
}

pub fn buffer_to_u16(buffer: [u8; 2]) -> (value: u16)
    ensures
        value == u16_be(buffer@),
{
    let high: u16 = buffer[0] as u16;
    let low: u16 = buffer[1] as u16;
    high * 0x100 + low
}

/// Convert buffer to u32. The buffer holds exactly four bytes.
pub fn buffer_to_u32(buffer: [u8; 4]) -> (value: u32)
    ensures
        value == u32_be(buffer@),
{
    let b0: u32 = buffer[0] as u32;
    let b1: u32 = buffer[1] as u32;
    let b2: u32 = buffer[2] as u32;
    let b3: u32 = buffer[3] as u32;
    b0 * 0x100_0000 + b1 * 0x1_0000 + b2 * 0x100 + b3
}

/// Convert buffer to u64. The buffer holds exactly eight bytes.
pub fn buffer_to_u64(buffer: [u8; 8]) -> (value: u64)
    ensures
        value == u64_be(buffer@),
{
    let high: u64 = buffer_to_u32([buffer[0], buffer[1], buffer[2], buffer[3]]) as u64;
    let low: u64 = buffer_to_u32([buffer[4], buffer[5], buffer[6], buffer[7]]) as u64;
    high * 0x1_0000_0000 + low
}

} // verus!
