//! Sixteen-bit integers in network byte order.

use vstd::prelude::*;

verus! {

/// The value of two bytes read most significant first.
pub open spec fn spec_u16_from_be(hi: u8, lo: u8) -> u16 {
    (hi as int * 256 + lo as int) as u16
}

/// The most significant byte of `value`.
pub open spec fn spec_hi_byte(value: u16) -> u8 {
    (value as int / 256) as u8
}

/// The least significant byte of `value`.
pub open spec fn spec_lo_byte(value: u16) -> u8 {
    (value as int % 256) as u8
}

/// The two bytes of `value`, most significant first.
pub open spec fn spec_u16_to_be(value: u16) -> Seq<u8> {
    seq![spec_hi_byte(value), spec_lo_byte(value)]
}

/// Reads two bytes as a big-endian integer.
pub fn u16_from_be(hi: u8, lo: u8) -> (value: u16)
    ensures
        value == spec_u16_from_be(hi, lo),
        value as int == hi as int * 256 + lo as int,
{
    let value: u16 = ((hi as u16) << 8) | (lo as u16);
    assert(((hi as u16) << 8) | (lo as u16) == (hi as u16) * 256 + (lo as u16)) by (bit_vector);
    value
}

/// The most significant byte of `value`.
pub fn hi_byte(value: u16) -> (byte: u8)
    ensures
        byte == spec_hi_byte(value),
        byte as int == value as int / 256,
{
    assert(value >> 8 == value / 256 && (value >> 8) < 256) by (bit_vector);
    (value >> 8) as u8
}

/// The least significant byte of `value`.
pub fn lo_byte(value: u16) -> (byte: u8)
    ensures
        byte == spec_lo_byte(value),
        byte as int == value as int % 256,
{
    assert(value & 0xff == value % 256 && (value & 0xff) < 256) by (bit_vector);
    (value & 0xff) as u8
}

/// Splitting an integer into its two bytes and reading them back gives the
/// integer again.
pub proof fn lemma_u16_be_roundtrip(value: u16)
    ensures
        spec_u16_from_be(spec_hi_byte(value), spec_lo_byte(value)) == value,
{
}

} // verus!
