//! The instructions that compute on registers.
//!
//! Arithmetic is on unsigned bytes and wraps. Where an instruction also
//! sets the flag register, every operand is read first, then the flag is
//! written, then the result: with the flag register as destination, the
//! result is what remains.

use super::Cpu;
use crate::instruction::{field_nn, field_x, field_y, nn_of, x_of, y_of};
use vstd::prelude::*;

verus! {

/// A fresh random byte from the `rand` crate: `Rng::gen` on the generator
/// that `thread_rng` returns. Nothing is claimed of the byte. The call
/// panics where the operating system cannot seed the generator.
#[verifier::external_body]
fn random_byte() -> (byte: u8) {
    rand::Rng::gen(&mut rand::thread_rng())
}

impl Cpu {
    /// Writes `flag` to the flag register, then `value` to register `x`.
    fn set_flag_then_reg(&mut self, flag: u8, x: usize, value: u8)
        requires
            x < 16,
        ensures
            old(self)@.wf(),
            final(self)@.wf(),
            final(self)@ == old(self)@.set_flag_then_reg(flag, x as int, value),
    {
        proof {
            use_type_invariant(&*self);
        }
        self.regs[0xF] = flag;
        self.regs[x] = value;
    }

    /// `6XNN`: sets register `X` to `NN`.
    pub fn opcode_6xnn(&mut self, opcode: u16)
        ensures
            old(self)@.wf(),
            final(self)@.wf(),
            final(self)@ == old(self)@.load_imm(x_of(opcode), nn_of(opcode)),
    {
        proof {
            use_type_invariant(&*self);
        }
        let regx_loc: usize = field_x(opcode);
        let val: u8 = field_nn(opcode);
        self.regs[regx_loc] = val;
    }

    /// `7XNN`: adds `NN` to register `X`, wrapping; the flag register is not
    /// touched.
    pub fn opcode_7xnn(&mut self, opcode: u16)
        ensures
            old(self)@.wf(),
            final(self)@.wf(),
            final(self)@ == old(self)@.add_imm(x_of(opcode), nn_of(opcode)),
    {
        proof {
            use_type_invariant(&*self);
        }
        let regx_loc: usize = field_x(opcode);
        let val: u8 = field_nn(opcode);
        self.regs[regx_loc] = self.regs[regx_loc].wrapping_add(val);
    }

    /// `8XY0`: copies register `Y` to register `X`.
    pub fn opcode_8xy0(&mut self, opcode: u16)
        ensures
            old(self)@.wf(),
            final(self)@.wf(),
            final(self)@ == old(self)@.mov(x_of(opcode), y_of(opcode)),
    {
        proof {
            use_type_invariant(&*self);
        }
        let regx_loc: usize = field_x(opcode);
        let regy: u8 = self.regs[field_y(opcode)];
        self.regs[regx_loc] = regy;
    }

    /// `8XY1`: sets register `X` to the bitwise or of registers `X` and `Y`.
    pub fn opcode_8xy1(&mut self, opcode: u16)
        ensures
            old(self)@.wf(),
            final(self)@.wf(),
            final(self)@ == old(self)@.or(x_of(opcode), y_of(opcode)),
    {
        proof {
            use_type_invariant(&*self);
        }
        let regx_loc: usize = field_x(opcode);
        let regy: u8 = self.regs[field_y(opcode)];
        self.regs[regx_loc] = self.regs[regx_loc] | regy;
    }

    /// `8XY2`: sets register `X` to the bitwise and of registers `X` and `Y`.
    pub fn opcode_8xy2(&mut self, opcode: u16)
        ensures
            old(self)@.wf(),
            final(self)@.wf(),
            final(self)@ == old(self)@.and(x_of(opcode), y_of(opcode)),
    {
        proof {
            use_type_invariant(&*self);
        }
        let regx_loc: usize = field_x(opcode);
        let regy: u8 = self.regs[field_y(opcode)];
        self.regs[regx_loc] = self.regs[regx_loc] & regy;
    }

    /// `8XY3`: sets register `X` to the bitwise exclusive or of registers
    /// `X` and `Y`.
    pub fn opcode_8xy3(&mut self, opcode: u16)
        ensures
            old(self)@.wf(),
            final(self)@.wf(),
            final(self)@ == old(self)@.xor(x_of(opcode), y_of(opcode)),
    {
        proof {
            use_type_invariant(&*self);
        }
        let regx_loc: usize = field_x(opcode);
        let regy: u8 = self.regs[field_y(opcode)];
        self.regs[regx_loc] = self.regs[regx_loc] ^ regy;
    }

    /// `8XY4`: adds register `Y` to register `X`, wrapping; the flag
    /// register becomes 1 if the sum exceeds 255, else 0.
    pub fn opcode_8xy4(&mut self, opcode: u16)
        ensures
            old(self)@.wf(),
            final(self)@.wf(),
            final(self)@ == old(self)@.add_reg(x_of(opcode), y_of(opcode)),
    {
        let regx_loc: usize = field_x(opcode);
        let regx: u8 = self.regs[regx_loc];
        let regy: u8 = self.regs[field_y(opcode)];
        let carry: u8 = if regx as u16 + regy as u16 > 0xFF {
            1
        } else {
            0
        };
        self.set_flag_then_reg(carry, regx_loc, regx.wrapping_add(regy));
    }

    /// `8XY5`: subtracts register `Y` from register `X`, wrapping; the flag
    /// register becomes 1 if `X` was at least `Y` (no borrow), else 0.
    pub fn opcode_8xy5(&mut self, opcode: u16)
        ensures
            old(self)@.wf(),
            final(self)@.wf(),
            final(self)@ == old(self)@.sub_reg(x_of(opcode), y_of(opcode)),
    {
        let regx_loc: usize = field_x(opcode);
        let regx: u8 = self.regs[regx_loc];
        let regy: u8 = self.regs[field_y(opcode)];
        let no_borrow: u8 = if regx >= regy {
            1
        } else {
            0
        };
        self.set_flag_then_reg(no_borrow, regx_loc, regx.wrapping_sub(regy));
    }

    /// `8XY6`: the flag register becomes the lowest bit of register `Y`;
    /// register `X` becomes register `Y` shifted left by one bit, the
    /// highest bit lost.
    pub fn opcode_8xy6(&mut self, opcode: u16)
        ensures
            old(self)@.wf(),
            final(self)@.wf(),
            final(self)@ == old(self)@.shift_low(x_of(opcode), y_of(opcode)),
    {
        let regx_loc: usize = field_x(opcode);
        let regy: u8 = self.regs[field_y(opcode)];
        assert(regy & 1 == regy % 2) by (bit_vector);
        assert(regy << 1 == (regy as u16 * 2) % 0x100) by (bit_vector);
        self.set_flag_then_reg(regy & 1, regx_loc, regy << 1);
    }

    /// `8XY7`: sets register `X` to register `Y` minus register `X`,
    /// wrapping; the flag register becomes 1 if `Y` was at least `X` (no
    /// borrow), else 0.
    pub fn opcode_8xy7(&mut self, opcode: u16)
        ensures
            old(self)@.wf(),
            final(self)@.wf(),
            final(self)@ == old(self)@.sub_from(x_of(opcode), y_of(opcode)),
    {
        let regx_loc: usize = field_x(opcode);
        let regx: u8 = self.regs[regx_loc];
        let regy: u8 = self.regs[field_y(opcode)];
        let no_borrow: u8 = if regy >= regx {
            1
        } else {
            0
        };
        self.set_flag_then_reg(no_borrow, regx_loc, regy.wrapping_sub(regx));
    }

    /// `8XYE`: the flag register becomes the highest bit of register `Y`;
    /// register `X` becomes register `Y` shifted left by one bit, the
    /// highest bit lost.
    pub fn opcode_8xye(&mut self, opcode: u16)
        ensures
            old(self)@.wf(),
            final(self)@.wf(),
            final(self)@ == old(self)@.shift_high(x_of(opcode), y_of(opcode)),
    {
        let regx_loc: usize = field_x(opcode);
        let regy: u8 = self.regs[field_y(opcode)];
        assert(regy >> 7 == regy / 0x80) by (bit_vector);
        assert(regy << 1 == (regy as u16 * 2) % 0x100) by (bit_vector);
        self.set_flag_then_reg(regy >> 7, regx_loc, regy << 1);
    }

    /// `CXNN` with the random byte given: sets register `X` to `random`
    /// masked by `NN`.
    pub fn opcode_cxnn_with(&mut self, opcode: u16, random: u8)
        ensures
            old(self)@.wf(),
            final(self)@.wf(),
            final(self)@ == old(self)@.random(x_of(opcode), nn_of(opcode), random),
    {
        proof {
            use_type_invariant(&*self);
        }
        let val: u8 = field_nn(opcode);
        let regx_loc: usize = field_x(opcode);
        self.regs[regx_loc] = random & val;
    }

    /// `CXNN`: sets register `X` to a random byte masked by `NN`.
    ///
    /// Whatever byte is drawn, the machine afterwards is what
    /// `opcode_cxnn_with` makes of that byte.
    pub fn opcode_cxnn(&mut self, opcode: u16)
        ensures
            old(self)@.wf(),
            final(self)@.wf(),
            exists|random: u8|
                final(self)@ == #[trigger] old(self)@.random(
                    x_of(opcode),
                    nn_of(opcode),
                    random,
                ),
    {
        let rng: u8 = random_byte();
        self.opcode_cxnn_with(opcode, rng);
    }
}

} // verus!
