//! Little-endian field extraction for the fixed-offset report format.

use vstd::prelude::*;

verus! {

/// The unsigned 16-bit value stored little-endian in two bytes.
pub open spec fn spec_u16_le(b0: u8, b1: u8) -> u16 {
    (b0 + b1 * 0x100) as u16
}

/// The signed 16-bit value stored little-endian in two bytes
/// (two's complement).
pub open spec fn spec_i16_le(b0: u8, b1: u8) -> i16 {
    if b0 + b1 * 0x100 < 0x8000 {
        (b0 + b1 * 0x100) as i16
    } else {
        (b0 + b1 * 0x100 - 0x10000) as i16
    }
}

/// The unsigned 32-bit value stored little-endian in four bytes.
pub open spec fn spec_u32_le(b0: u8, b1: u8, b2: u8, b3: u8) -> u32 {
    (b0 + b1 * 0x100 + b2 * 0x1_0000 + b3 * 0x100_0000) as u32
}

/// Relies on `byteorder::LittleEndian::read_i16`: reads the signed 16-bit
/// little-endian integer held by the first two bytes of the buffer.
#[verifier::external_body]
pub(crate) fn read_i16_le(b0: u8, b1: u8) -> (r: i16)
    ensures
        r == spec_i16_le(b0, b1),
{
    <byteorder::LittleEndian as byteorder::ByteOrder>::read_i16(&[b0, b1])
}

/// Relies on `byteorder::LittleEndian::read_u32`: reads the unsigned 32-bit
/// little-endian integer held by the first four bytes of the buffer.
#[verifier::external_body]
pub(crate) fn read_u32_le(b0: u8, b1: u8, b2: u8, b3: u8) -> (r: u32)
    ensures
        r == spec_u32_le(b0, b1, b2, b3),
{
    <byteorder::LittleEndian as byteorder::ByteOrder>::read_u32(&[b0, b1, b2, b3])
}

} // verus!
