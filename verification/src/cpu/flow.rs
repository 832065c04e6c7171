//! The instructions that decide which instruction runs next: jumps, calls
//! and conditional skips.

use super::Cpu;
use crate::error::CpuError;
use crate::instruction::{field_nn, field_nnn, field_x, field_y, nn_of, nnn_of, x_of, y_of};
use crate::machine::STACK_LIMIT;
use vstd::prelude::*;

verus! {

impl Cpu {
    /// Moves the program counter past the next instruction if `cond` holds.
    fn skip_if(&mut self, cond: bool)
        ensures
            old(self)@.wf(),
            final(self)@.wf(),
            final(self)@ == old(self)@.skip_if(cond),
    {
        proof {
            use_type_invariant(&*self);
        }
        if cond {
            self.pc = self.pc.wrapping_add(2);
        }
    }

    /// `00EE`: returns from a subroutine, to the program counter that the
    /// matching call saved.
    ///
    /// Fails, and changes nothing, where no call is in progress.
    pub fn opcode_00ee(&mut self, _opcode: u16) -> (r: Result<(), CpuError>)
        ensures
            old(self)@.wf(),
            final(self)@.wf(),
            old(self)@.stack.len() == 0 ==> r == Err::<(), CpuError>(CpuError::StackUnderflow)
                && final(self)@ == old(self)@,
            old(self)@.stack.len() > 0 ==> r == Ok::<(), CpuError>(()) && final(self)@ == old(
                self,
            )@.ret(),
    {
        proof {
            use_type_invariant(&*self);
        }
        if self.depth == 0 {
            return Err(CpuError::StackUnderflow);
        }
        self.depth = self.depth - 1;
        self.pc = self.m_stack[self.depth];
        assert(self@.stack =~= old(self)@.stack.drop_last());
        Ok(())
    }

    /// `1NNN`: jumps to the address `NNN`.
    pub fn opcode_1nnn(&mut self, opcode: u16)
        ensures
            old(self)@.wf(),
            final(self)@.wf(),
            final(self)@ == old(self)@.jump(nnn_of(opcode)),
    {
        proof {
            use_type_invariant(&*self);
        }
        self.pc = field_nnn(opcode);
    }

    /// `2NNN`: calls the subroutine at `NNN`, saving the program counter.
    ///
    /// Fails, and changes nothing, where `STACK_LIMIT` calls are already in
    /// progress.
    pub fn opcode_2nnn(&mut self, opcode: u16) -> (r: Result<(), CpuError>)
        ensures
            old(self)@.wf(),
            final(self)@.wf(),
            old(self)@.stack.len() >= STACK_LIMIT ==> r == Err::<(), CpuError>(
                CpuError::StackOverflow,
            ) && final(self)@ == old(self)@,
            old(self)@.stack.len() < STACK_LIMIT ==> r == Ok::<(), CpuError>(()) && final(self)@
                == old(self)@.call(nnn_of(opcode)),
    {
        proof {
            use_type_invariant(&*self);
        }
        if self.depth >= STACK_LIMIT {
            return Err(CpuError::StackOverflow);
        }
        self.m_stack[self.depth] = self.pc;
        self.depth = self.depth + 1;
        self.pc = field_nnn(opcode);
        assert(self@.stack =~= old(self)@.stack.push(old(self)@.pc));
        Ok(())
    }

    /// `3XNN`: skips the next instruction if register `X` equals `NN`.
    pub fn opcode_3xnn(&mut self, opcode: u16)
        ensures
            old(self)@.wf(),
            final(self)@.wf(),
            final(self)@ == old(self)@.skip_eq_imm(x_of(opcode), nn_of(opcode)),
    {
        let regx: u8 = self.regs[field_x(opcode)];
        let val: u8 = field_nn(opcode);
        self.skip_if(regx == val);
    }

    /// `4XNN`: skips the next instruction if register `X` differs from `NN`.
    pub fn opcode_4xnn(&mut self, opcode: u16)
        ensures
            old(self)@.wf(),
            final(self)@.wf(),
            final(self)@ == old(self)@.skip_ne_imm(x_of(opcode), nn_of(opcode)),
    {
        let regx: u8 = self.regs[field_x(opcode)];
        let val: u8 = field_nn(opcode);
        self.skip_if(regx != val);
    }

    /// `5XY0`: skips the next instruction if registers `X` and `Y` are equal.
    pub fn opcode_5xy0(&mut self, opcode: u16)
        ensures
            old(self)@.wf(),
            final(self)@.wf(),
            final(self)@ == old(self)@.skip_eq_reg(x_of(opcode), y_of(opcode)),
    {
        let regx: u8 = self.regs[field_x(opcode)];
        let regy: u8 = self.regs[field_y(opcode)];
        self.skip_if(regx == regy);
    }

    /// `9XY0`: skips the next instruction if registers `X` and `Y` differ.
    pub fn opcode_9xy0(&mut self, opcode: u16)
        ensures
            old(self)@.wf(),
            final(self)@.wf(),
            final(self)@ == old(self)@.skip_ne_reg(x_of(opcode), y_of(opcode)),
    {
        let regx: u8 = self.regs[field_x(opcode)];
        let regy: u8 = self.regs[field_y(opcode)];
        self.skip_if(regx != regy);
    }

    /// `BNNN`: jumps to the address `NNN` plus register 0.
    pub fn opcode_bnnn(&mut self, opcode: u16)
        ensures
            old(self)@.wf(),
            final(self)@.wf(),
            final(self)@ == old(self)@.jump_offset(nnn_of(opcode)),
    {
        proof {
            use_type_invariant(&*self);
        }
        let addr: u16 = field_nnn(opcode);
        self.pc = self.regs[0] as u16 + addr;
    }

    /// Whether key `key` is held down; a value above 15 names no key.
    fn key_down(&self, key: u8) -> (down: bool)
        ensures
            down == self@.key_pressed(key),
    {
        (key as usize) < 16 && self.keyboard[key as usize]
    }

    /// `EX9E`: skips the next instruction if the key named by register `X`
    /// is held down.
    pub fn opcode_ex9e(&mut self, opcode: u16)
        ensures
            old(self)@.wf(),
            final(self)@.wf(),
            final(self)@ == old(self)@.skip_key(x_of(opcode)),
    {
        let key: u8 = self.regs[field_x(opcode)];
        let down: bool = self.key_down(key);
        self.skip_if(down);
    }

    /// `EXA1`: skips the next instruction if the key named by register `X`
    /// is not held down.
    pub fn opcode_exa1(&mut self, opcode: u16)
        ensures
            old(self)@.wf(),
            final(self)@.wf(),
            final(self)@ == old(self)@.skip_no_key(x_of(opcode)),
    {
        let key: u8 = self.regs[field_x(opcode)];
        let down: bool = self.key_down(key);
        self.skip_if(!down);
    }
}

} // verus!
