//! The instructions that change the frame.

use super::Cpu;
use crate::display::{blank, collides, covers_cell, drawn, row_bit, SCREEN_CELLS};
use crate::error::CpuError;
use crate::instruction::{field_n, field_x, field_y, n_of, x_of, y_of};
use crate::machine::MEMORY_SIZE;
use vstd::prelude::*;

verus! {

/// The sprite column that lies over cell `i` when the sprite's left edge is
/// in screen column `x`.
#[verifier::opaque]
spec fn col_of(x: int, i: int) -> int {
    (i % 64 - x) % 64
}

/// The sprite row that lies over cell `i` when the sprite's top edge is in
/// screen row `y`.
#[verifier::opaque]
spec fn row_of(y: int, i: int) -> int {
    (i / 64 - y) % 32
}

/// Whether a sprite placed at (`x`, `y`) has a set pixel in cell `i` that
/// lies in one of its first `rows` rows, or in the first `cols` columns of
/// the row after them.
spec fn covers_upto(sprite: Seq<u8>, x: int, y: int, i: int, rows: int, cols: int) -> bool {
    let col = col_of(x, i);
    let row = row_of(y, i);
    &&& 0 <= col < 8
    &&& 0 <= row < sprite.len()
    &&& (row < rows || (row == rows && col < cols))
    &&& row_bit(sprite[row], col as u8)
}

/// Sprite pixel (`col`, `row`) of a sprite placed at (`x`, `y`) lies over
/// one cell, and over no other.
proof fn lemma_target(x: int, y: int, row: int, col: int)
    requires
        0 <= x < 256,
        0 <= y < 256,
        0 <= row < 32,
        0 <= col < 8,
    ensures
        ({
            let idx = ((y + row) % 32) * 64 + (x + col) % 64;
            &&& 0 <= idx < SCREEN_CELLS
            &&& col_of(x, idx) == col
            &&& row_of(y, idx) == row
            &&& forall|i: int|
                0 <= i < SCREEN_CELLS && #[trigger] col_of(x, i) == col && #[trigger] row_of(y, i)
                    == row ==> i == idx
        }),
{
    reveal(col_of);
    reveal(row_of);
}

/// With all its rows counted, `covers_upto` is `covers_cell`.
proof fn lemma_covers_all(sprite: Seq<u8>, x: int, y: int, i: int)
    requires
        0 <= i < SCREEN_CELLS,
    ensures
        covers_upto(sprite, x, y, i, sprite.len() as int, 0) == covers_cell(sprite, x, y, i),
{
    reveal(col_of);
    reveal(row_of);
}

/// Whether the part of a sprite that `covers_upto` describes lies over a
/// pixel that is on.
spec fn collides_upto(frame: Seq<bool>, sprite: Seq<u8>, x: int, y: int, rows: int, cols: int) -> bool {
    exists|i: int|
        0 <= i < SCREEN_CELLS && frame[i] && #[trigger] covers_upto(sprite, x, y, i, rows, cols)
}

/// Composes the `height` sprite rows found at `start` in `mem` onto `screen`
/// at (`x`, `y`), and tells whether that switched a pixel off.
fn blit(screen: &mut [bool; 2048], mem: &[u8; 4096], start: usize, height: usize, x: u8, y: u8) -> (hit:
    bool)
    requires
        height < 16,
        start + height <= MEMORY_SIZE,
    ensures
        final(screen)@ == drawn(
            old(screen)@,
            mem@.subrange(start as int, start + height),
            x as int,
            y as int,
        ),
        hit == collides(
            old(screen)@,
            mem@.subrange(start as int, start + height),
            x as int,
            y as int,
        ),
    no_unwind
{
    let ghost before = screen@;
    let ghost sprite = mem@.subrange(start as int, start + height);
    let mut hit = false;
    let mut line: usize = 0;
    while line < height
        invariant
            height < 16,
            start + height <= MEMORY_SIZE,
            line <= height,
            sprite == mem@.subrange(start as int, start + height),
            forall|i: int|
                0 <= i < SCREEN_CELLS ==> screen@[i] == (before[i] != covers_upto(
                    sprite,
                    x as int,
                    y as int,
                    i,
                    line as int,
                    0,
                )),
            hit == collides_upto(before, sprite, x as int, y as int, line as int, 0),
        decreases height - line,
    {
        let data: u8 = mem[start + line];
        let mut bit: u8 = 0;
        while bit < 8
            invariant
                height < 16,
                line < height,
                bit <= 8,
                sprite.len() == height,
                data == sprite[line as int],
                forall|i: int|
                    0 <= i < SCREEN_CELLS ==> screen@[i] == (before[i] != covers_upto(
                        sprite,
                        x as int,
                        y as int,
                        i,
                        line as int,
                        bit as int,
                    )),
                hit == collides_upto(before, sprite, x as int, y as int, line as int, bit as int),
            decreases 8 - bit,
        {
            let ghost prev = screen@;
            let ghost prev_hit = hit;
            let px: usize = (x as usize + bit as usize) % 64;
            let py: usize = (y as usize + line) % 32;
            let idx: usize = py * 64 + px;
            let set: bool = data & (0x80u8 >> bit) != 0;
            if set {
                if screen[idx] {
                    hit = true;
                }
                screen[idx] = !screen[idx];
            }
            proof {
                let xi = x as int;
                let yi = y as int;
                let l = line as int;
                let b = bit as int;
                lemma_target(xi, yi, l, b);
                assert(!covers_upto(sprite, xi, yi, idx as int, l, b));
                assert(covers_upto(sprite, xi, yi, idx as int, l, b + 1) == set);
                assert forall|i: int| 0 <= i < SCREEN_CELLS && i != idx implies covers_upto(
                    sprite,
                    xi,
                    yi,
                    i,
                    l,
                    b + 1,
                ) == covers_upto(sprite, xi, yi, i, l, b) by {}
                assert(prev[idx as int] == before[idx as int]);
                if collides_upto(before, sprite, xi, yi, l, b + 1) {
                    let i = choose|i: int|
                        0 <= i < SCREEN_CELLS && before[i] && #[trigger] covers_upto(
                            sprite,
                            xi,
                            yi,
                            i,
                            l,
                            b + 1,
                        );
                    if i != idx {
                        assert(covers_upto(sprite, xi, yi, i, l, b));
                    }
                }
                if prev_hit {
                    let i = choose|i: int|
                        0 <= i < SCREEN_CELLS && before[i] && #[trigger] covers_upto(
                            sprite,
                            xi,
                            yi,
                            i,
                            l,
                            b,
                        );
                    assert(covers_upto(sprite, xi, yi, i, l, b + 1));
                }
                if set && before[idx as int] {
                    assert(covers_upto(sprite, xi, yi, idx as int, l, b + 1));
                }
            }
            bit = bit + 1;
        }
        proof {
            let xi = x as int;
            let yi = y as int;
            let l = line as int;
            assert forall|i: int| 0 <= i < SCREEN_CELLS implies covers_upto(
                sprite,
                xi,
                yi,
                i,
                l,
                8,
            ) == covers_upto(sprite, xi, yi, i, l + 1, 0) by {}
            if collides_upto(before, sprite, xi, yi, l, 8) {
                let i = choose|i: int|
                    0 <= i < SCREEN_CELLS && before[i] && #[trigger] covers_upto(
                        sprite,
                        xi,
                        yi,
                        i,
                        l,
                        8,
                    );
                assert(covers_upto(sprite, xi, yi, i, l + 1, 0));
            }
            if collides_upto(before, sprite, xi, yi, l + 1, 0) {
                let i = choose|i: int|
                    0 <= i < SCREEN_CELLS && before[i] && #[trigger] covers_upto(
                        sprite,
                        xi,
                        yi,
                        i,
                        l + 1,
                        0,
                    );
                assert(covers_upto(sprite, xi, yi, i, l, 8));
            }
        }
        line = line + 1;
    }
    proof {
        let xi = x as int;
        let yi = y as int;
        let h = height as int;
        assert forall|i: int| 0 <= i < SCREEN_CELLS implies covers_upto(sprite, xi, yi, i, h, 0)
            == covers_cell(sprite, xi, yi, i) by {
            lemma_covers_all(sprite, xi, yi, i);
        }
        assert(screen@ =~= drawn(before, sprite, xi, yi));
        if collides_upto(before, sprite, xi, yi, h, 0) {
            let i = choose|i: int|
                0 <= i < SCREEN_CELLS && before[i] && #[trigger] covers_upto(
                    sprite,
                    xi,
                    yi,
                    i,
                    h,
                    0,
                );
            assert(covers_cell(sprite, xi, yi, i));
        }
        if collides(before, sprite, xi, yi) {
            let i = choose|i: int|
                0 <= i < SCREEN_CELLS && before[i] && #[trigger] covers_cell(sprite, xi, yi, i);
            assert(covers_upto(sprite, xi, yi, i, h, 0));
        }
    }
    hit
}

impl Cpu {
    /// `00E0`: switches every pixel off.
    pub fn opcode_00e0(&mut self, _opcode: u16)
        ensures
            old(self)@.wf(),
            final(self)@.wf(),
            final(self)@ == old(self)@.clear_screen(),
    {
        proof {
            use_type_invariant(&*self);
        }
        self.screen = [false; 2048];
        assert(self.screen@ =~= blank());
    }

    /// `DXYN`: draws the sprite of `N` rows that the address register points
    /// at, at the column held in register `X` and the row held in register
    /// `Y`, wrapping around the edges, and sets the flag register to 1 if
    /// that switched a pixel off, else to 0.
    ///
    /// Fails, and changes nothing, where the sprite's rows do not all lie
    /// within memory.
    pub fn opcode_dxyn(&mut self, opcode: u16) -> (r: Result<(), CpuError>)
        ensures
            old(self)@.wf(),
            final(self)@.wf(),
            old(self)@.addr + n_of(opcode) > MEMORY_SIZE ==> r == Err::<(), CpuError>(
                CpuError::AddressOutOfRange,
            ) && final(self)@ == old(self)@,
            old(self)@.addr + n_of(opcode) <= MEMORY_SIZE ==> r == Ok::<(), CpuError>(())
                && final(self)@ == old(self)@.draw(x_of(opcode), y_of(opcode), n_of(opcode)),
    {
        proof {
            use_type_invariant(&*self);
        }
        let regx: u8 = self.regs[field_x(opcode)];
        let regy: u8 = self.regs[field_y(opcode)];
        let height: usize = field_n(opcode) as usize;
        let start: usize = self.addr_reg as usize;
        if start + height > 4096 {
            return Err(CpuError::AddressOutOfRange);
        }
        let hit: bool = blit(&mut self.screen, &self.game_mem, start, height, regx, regy);
        self.regs[0xF] = if hit {
            1
        } else {
            0
        };
        assert(self@.regs =~= old(self)@.draw(x_of(opcode), y_of(opcode), n_of(opcode)).regs);
        Ok(())
    }
}

} // verus!
