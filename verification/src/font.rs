//! The built-in glyphs for the sixteen hexadecimal digits.

use vstd::prelude::*;

verus! {

/// The memory cell at which the glyph table starts.
pub const FONT_BASE: u16 = 0x50;

/// The number of bytes of one glyph: five rows of four pixels, held in the
/// high nibble of each byte.
pub const GLYPH_LEN: u16 = 5;

/// The size of the glyph table in bytes.
pub const FONT_LEN: usize = 80;

/// The glyphs of the digits `0` to `F`, five bytes each, in order.
pub const FONT: [u8; 80] = [
    0xF0, 0x90, 0x90, 0x90, 0xF0,
    0x20, 0x60, 0x20, 0x20, 0x70,
    0xF0, 0x10, 0xF0, 0x80, 0xF0,
    0xF0, 0x10, 0xF0, 0x10, 0xF0,
    0x90, 0x90, 0xF0, 0x10, 0x10,
    0xF0, 0x80, 0xF0, 0x10, 0xF0,
    0xF0, 0x80, 0xF0, 0x90, 0xF0,
    0xF0, 0x10, 0x20, 0x40, 0x40,
    0xF0, 0x90, 0xF0, 0x90, 0xF0,
    0xF0, 0x90, 0xF0, 0x10, 0xF0,
    0xF0, 0x90, 0xF0, 0x90, 0x90,
    0xE0, 0x90, 0xE0, 0x90, 0xE0,
    0xF0, 0x80, 0x80, 0x80, 0xF0,
    0xE0, 0x90, 0x90, 0x90, 0xE0,
    0xF0, 0x80, 0xF0, 0x80, 0xF0,
    0xF0, 0x80, 0xF0, 0x80, 0x80,
];

/// The address of the first byte of the glyph for a digit.
pub open spec fn glyph_address(digit: int) -> int {
    FONT_BASE + GLYPH_LEN * digit
}

} // verus!
