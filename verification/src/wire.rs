//! Sixteen-bit words as the device stores them: two bytes, the low one first.

use byteorder::{ByteOrder, LittleEndian};
use vstd::prelude::*;

verus! {

/// The high byte of a word.
pub open spec fn high_byte(w: u16) -> u8 {
    (w >> 8) as u8
}

/// The low byte of a word.
pub open spec fn low_byte(w: u16) -> u8 {
    (w & 0xff) as u8
}

/// The word whose low byte is `lo` and whose high byte is `hi`.
pub open spec fn word_of(lo: u8, hi: u8) -> u16 {
    (lo as u16) | ((hi as u16) << 8)
}

/// Splitting a word and joining the halves gives the word back, and the
/// other way round.
pub proof fn lemma_word_bytes(w: u16, lo: u8, hi: u8)
    ensures
        word_of(low_byte(w), high_byte(w)) == w,
        low_byte(word_of(lo, hi)) == lo,
        high_byte(word_of(lo, hi)) == hi,
{
    assert(((((w & 0xff) as u8) as u16) | ((((w >> 8) as u8) as u16) << 8)) == w) by (bit_vector);
    assert(((((lo as u16) | ((hi as u16) << 8)) & 0xff) as u8) == lo) by (bit_vector);
    assert(((((lo as u16) | ((hi as u16) << 8)) >> 8) as u8) == hi) by (bit_vector);
}

/// Calls byteorder's `LittleEndian::read_u16` on the two bytes given, in
/// that order. The contract states the crate's documented result: the
/// little-endian reading, `lo` being the low byte and `hi` the high one.
#[verifier::external_body]
pub(crate) fn read_u16_le(lo: u8, hi: u8) -> (w: u16)
    ensures
        w == word_of(lo, hi),
{
    LittleEndian::read_u16(&[lo, hi])
}

/// Calls byteorder's `LittleEndian::write_u16` on a buffer of two bytes and
/// hands the buffer back. The contract states the crate's documented
/// result: the low byte of the word comes first, the high byte second.
#[verifier::external_body]
pub(crate) fn write_u16_le(w: u16) -> (bytes: [u8; 2])
    ensures
        bytes@ == seq![low_byte(w), high_byte(w)],
{
    let mut bytes = [0u8; 2];
    LittleEndian::write_u16(&mut bytes, w);
    bytes
}

/// A word read as a signed number in two's complement.
pub open spec fn signed(w: u16) -> int {
    if w < 0x8000 {
        w as int
    } else {
        w - 0x10000
    }
}

/// Calls byteorder's `LittleEndian::read_i16` on the two bytes given, in
/// that order. The contract states the crate's documented result: the
/// little-endian word of the two bytes, read in two's complement.
#[verifier::external_body]
pub(crate) fn read_i16_le(lo: u8, hi: u8) -> (v: i16)
    ensures
        v == signed(word_of(lo, hi)),
{
    LittleEndian::read_i16(&[lo, hi])
}

/// Calls byteorder's `LittleEndian::read_u32` on the four bytes given, in
/// that order. The contract states the crate's documented result: the
/// little-endian reading, `b0` being the lowest byte.
#[verifier::external_body]
pub(crate) fn read_u32_le(b0: u8, b1: u8, b2: u8, b3: u8) -> (v: u32)
    ensures
        v == b0 + 0x100 * b1 + 0x1_0000 * b2 + 0x100_0000 * b3,
{
    LittleEndian::read_u32(&[b0, b1, b2, b3])
}

} // verus!
