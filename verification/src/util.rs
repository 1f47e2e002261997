//! Cursor-advancing big-endian readers.

use vstd::prelude::*;

verus! {

/// The value of the first byte of `bytes`.
pub open spec fn be_value_u8(bytes: Seq<u8>) -> u8
    recommends
        bytes.len() >= 1,
{
    bytes[0]
}

/// The 16-bit value whose big-endian form is the first two bytes of `bytes`.
pub open spec fn be_value_u16(bytes: Seq<u8>) -> u16
    recommends
        bytes.len() >= 2,
{
    (bytes[0] as int * 0x100 + bytes[1] as int) as u16
}

/// The 32-bit value whose big-endian form is the first four bytes of `bytes`.
pub open spec fn be_value_u32(bytes: Seq<u8>) -> u32
    recommends
        bytes.len() >= 4,
{
    (bytes[0] as int * 0x100_0000 + bytes[1] as int * 0x1_0000 + bytes[2] as int * 0x100
        + bytes[3] as int) as u32
}

/// Reads one byte and moves the cursor past it.
pub fn read_be_u8(input: &mut &[u8]) -> (value: u8)
    requires
        old(input)@.len() >= 1,
    ensures
        value == be_value_u8(old(input)@),
        final(input)@ == old(input)@.skip(1),
{
    let (int_bytes, rest) = input.split_at(1);
    *input = rest;
    int_bytes[0]
}

/// Reads a big-endian 32-bit value and moves the cursor past its four bytes.
pub fn read_be_u32(input: &mut &[u8]) -> (value: u32)
    requires
        old(input)@.len() >= 4,
    ensures
        value == be_value_u32(old(input)@),
        final(input)@ == old(input)@.skip(4),
{
    let (int_bytes, rest) = input.split_at(4);
    *input = rest;
    let b0: u32 = int_bytes[0] as u32;
    let b1: u32 = int_bytes[1] as u32;
    let b2: u32 = int_bytes[2] as u32;
    let b3: u32 = int_bytes[3] as u32;
    b0 * 0x100_0000 + b1 * 0x1_0000 + b2 * 0x100 + b3
}

/// Reads a big-endian 16-bit value and moves the cursor past its two bytes.
pub fn read_be_u16(input: &mut &[u8]) -> (value: u16)
    requires
        old(input)@.len() >= 2,
    ensures
        value == be_value_u16(old(input)@),
        final(input)@ == old(input)@.skip(2),
{
    let (int_bytes, rest) = input.split_at(2);
    *input = rest;
    let b0: u16 = int_bytes[0] as u16;
    let b1: u16 = int_bytes[1] as u16;
    b0 * 0x100 + b1
}

} // verus!
