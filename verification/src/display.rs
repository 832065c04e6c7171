//! The monochrome framebuffer as a mathematical object.
//!
//! A frame is a sequence of `SCREEN_CELLS` booleans, one per pixel, row by
//! row: the pixel in column `x` of row `y` is cell `y * SCREEN_WIDTH + x`.
//! A sprite is a sequence of bytes, one per row of eight pixels, the most
//! significant bit leftmost. Drawing composes a sprite onto a frame by
//! exclusive or, wrapping around at the right and bottom edges.

use vstd::prelude::*;

verus! {

/// The number of pixel columns.
pub const SCREEN_WIDTH: usize = 64;

/// The number of pixel rows.
pub const SCREEN_HEIGHT: usize = 32;

/// The number of pixels.
pub const SCREEN_CELLS: usize = 2048;

/// The number of pixels in one sprite row.
pub const SPRITE_WIDTH: u8 = 8;

/// The cell that holds the pixel in column `x` of row `y`.
pub open spec fn cell(x: int, y: int) -> int {
    y * SCREEN_WIDTH as int + x
}

/// The frame with every pixel off.
pub open spec fn blank() -> Seq<bool> {
    Seq::new(SCREEN_CELLS as nat, |i: int| false)
}

/// Whether the pixel in column `col` of a sprite row is set; column 0 is the
/// most significant bit.
pub open spec fn row_bit(row: u8, col: u8) -> bool {
    row & (0x80u8 >> col) != 0
}

/// Whether a sprite placed at (`x`, `y`) has a set pixel at (`px`, `py`).
///
/// Sprite pixel (`col`, `row`) lies at column `(x + col) % SCREEN_WIDTH` of
/// row `(y + row) % SCREEN_HEIGHT`; so the sprite pixel that can lie at
/// (`px`, `py`) is the one in column `(px - x) % SCREEN_WIDTH` of row
/// `(py - y) % SCREEN_HEIGHT`, if the sprite has one there. A sprite is
/// narrower and lower than the frame, so no two of its pixels lie at the
/// same place.
pub open spec fn covers(sprite: Seq<u8>, x: int, y: int, px: int, py: int) -> bool {
    let col = (px - x) % (SCREEN_WIDTH as int);
    let row = (py - y) % (SCREEN_HEIGHT as int);
    &&& col < SPRITE_WIDTH
    &&& row < sprite.len()
    &&& row_bit(sprite[row], col as u8)
}

/// Whether a sprite placed at (`x`, `y`) has a set pixel in cell `i`.
pub open spec fn covers_cell(sprite: Seq<u8>, x: int, y: int, i: int) -> bool {
    covers(sprite, x, y, i % (SCREEN_WIDTH as int), i / (SCREEN_WIDTH as int))
}

/// The frame after drawing a sprite at (`x`, `y`): each pixel under a set
/// sprite pixel is inverted, every other pixel is kept.
pub open spec fn drawn(frame: Seq<bool>, sprite: Seq<u8>, x: int, y: int) -> Seq<bool> {
    Seq::new(SCREEN_CELLS as nat, |i: int| frame[i] != covers_cell(sprite, x, y, i))
}

/// Whether drawing a sprite at (`x`, `y`) switches a pixel off: some pixel
/// that is on lies under a set sprite pixel.
pub open spec fn collides(frame: Seq<bool>, sprite: Seq<u8>, x: int, y: int) -> bool {
    exists|i: int| 0 <= i < SCREEN_CELLS && frame[i] && #[trigger] covers_cell(sprite, x, y, i)
}

} // verus!
