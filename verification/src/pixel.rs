//! The colour codec: 24-bit RGB (8/8/8) to the matrix's 16-bit RGB565 word
//! and back.
//!
//! Packing truncates: red and blue lose their low three bits, green its low
//! two. Unpacking is not the inverse of packing; a colour read back after it
//! was written may differ from the one written, but reading it back again
//! changes nothing more.

use crate::wire::{high_byte, low_byte};
use vstd::prelude::*;

verus! {

/// An RGB colour, eight bits per channel: (red, green, blue).
pub type Pixel = (u8, u8, u8);

/// The RGB565 word of a colour: red in bits 11..16, green in bits 5..11,
/// blue in bits 0..5.
pub open spec fn pack(p: Pixel) -> u16 {
    (((p.0 >> 3) as u16) << 11) | (((p.1 >> 2) as u16) << 5) | ((p.2 >> 3) as u16)
}

/// The colour that an RGB565 word is read back as. All arithmetic is on
/// eight bits: the final shift of the green channel drops what it pushes
/// past bit 7.
pub open spec fn unpack(w: u16) -> Pixel {
    (
        high_byte(w) & 0xF8,
        (((high_byte(w) & 0x07) << 3) | (low_byte(w) & 0xE0)) << 2,
        (low_byte(w) & 0x1F) << 3,
    )
}

/// Converts an RGB888 colour into its RGB565 word.
pub fn convert_from_pixel(p: Pixel) -> (w: u16)
    ensures
        w == pack(p),
{
    let r: u16 = (p.0 >> 3) as u16;
    let g: u16 = (p.1 >> 2) as u16;
    let b: u16 = (p.2 >> 3) as u16;
    (r << 11) | (g << 5) | b
}

/// Converts an RGB565 word into the RGB888 colour it is read back as.
pub fn convert_to_pixel(val: u16) -> (p: Pixel)
    ensures
        p == unpack(val),
{
    let msb: u8 = (val >> 8) as u8;
    let lsb: u8 = (val & 0xff) as u8;
    let r: u8 = msb & 0xF8;
    let g: u8 = ((msb & 0x07) << 3) | (lsb & 0xE0);
    let b: u8 = lsb & 0x1F;
    (r, g << 2, b << 3)
}

/// The green channel of a colour after it was packed and read back: bit 7
/// is set where bit 7 or bit 2 of the colour written was, bits 6 and 5 are
/// kept, the rest is clear.
pub open spec fn green_read_back(g: u8) -> u8 {
    ((g | (g << 5)) & 0x80) | (g & 0x60)
}

/// Packing truncates each channel: the red field of the word is the top
/// five bits of red, the green field the top six bits of green, the blue
/// field the top five bits of blue.
pub proof fn lemma_pack_truncates(p: Pixel)
    ensures
        pack(p) >> 11 == p.0 >> 3,
        (pack(p) >> 5) & 0x3f == p.1 >> 2,
        pack(p) & 0x1f == p.2 >> 3,
{
    let (r, g, b) = p;
    let w = pack(p);
    assert(w >> 11 == r >> 3 && (w >> 5) & 0x3f == g >> 2 && w & 0x1f == b >> 3) by (bit_vector)
        requires
            w == (((r >> 3) as u16) << 11) | (((g >> 2) as u16) << 5) | ((b >> 3) as u16),
    ;
}

/// What a colour is read back as after it was packed: red and blue without
/// their low three bits, green as `green_read_back` says.
pub proof fn lemma_read_back(p: Pixel)
    ensures
        unpack(pack(p)) == (p.0 & 0xF8, green_read_back(p.1), p.2 & 0xF8),
{
    let (r, g, b) = p;
    let w = pack(p);
    let msb = high_byte(w);
    let lsb = low_byte(w);
    assert(msb & 0xF8 == r & 0xF8 && (((msb & 0x07) << 3) | (lsb & 0xE0)) << 2 == ((g | (g << 5))
        & 0x80) | (g & 0x60) && (lsb & 0x1F) << 3 == b & 0xF8) by (bit_vector)
        requires
            w == (((r >> 3) as u16) << 11) | (((g >> 2) as u16) << 5) | ((b >> 3) as u16),
            msb == (w >> 8) as u8,
            lsb == (w & 0xff) as u8,
    ;
}

/// Packing and reading back is idempotent: done a second time, it changes
/// nothing.
pub proof fn lemma_read_back_idempotent(p: Pixel)
    ensures
        unpack(pack(unpack(pack(p)))) == unpack(pack(p)),
{
    let q = unpack(pack(p));
    lemma_read_back(p);
    lemma_read_back(q);
    let (r, g, b) = p;
    assert((r & 0xF8) & 0xF8 == r & 0xF8) by (bit_vector);
    assert((b & 0xF8) & 0xF8 == b & 0xF8) by (bit_vector);
    let h = green_read_back(g);
    assert(((h | (h << 5)) & 0x80) | (h & 0x60) == h) by (bit_vector)
        requires
            h == ((g | (g << 5)) & 0x80) | (g & 0x60),
    ;
}

/// A colour that was read from a word survives packing and reading back.
pub proof fn lemma_unpack_stable(w: u16)
    ensures
        unpack(pack(unpack(w))) == unpack(w),
{
    let (r, g, b) = unpack(w);
    lemma_read_back((r, g, b));
    let msb = high_byte(w);
    let lsb = low_byte(w);
    assert(r & 0xF8 == r) by (bit_vector)
        requires
            r == msb & 0xF8,
    ;
    assert(b & 0xF8 == b) by (bit_vector)
        requires
            b == (lsb & 0x1F) << 3,
    ;
    assert(((g | (g << 5)) & 0x80) | (g & 0x60) == g) by (bit_vector)
        requires
            g == (((msb & 0x07) << 3) | (lsb & 0xE0)) << 2,
    ;
}

} // verus!
