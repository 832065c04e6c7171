//! The instructions on the address register, the timers, the keys and
//! memory.

use super::Cpu;
use crate::error::CpuError;
use crate::font::{FONT_BASE, GLYPH_LEN};
use crate::instruction::{field_nnn, field_x, nnn_of, x_of};
use crate::machine::{CpuState, MEMORY_SIZE};
use vstd::prelude::*;

verus! {

impl Cpu {
    /// `ANNN`: sets the address register to `NNN`.
    pub fn opcode_annn(&mut self, opcode: u16)
        ensures
            old(self)@.wf(),
            final(self)@.wf(),
            final(self)@ == old(self)@.load_addr(nnn_of(opcode)),
    {
        proof {
            use_type_invariant(&*self);
        }
        let addr: u16 = field_nnn(opcode);
        self.addr_reg = addr;
    }

    /// `FX07`: copies the delay timer to register `X`.
    pub fn opcode_fx07(&mut self, opcode: u16)
        ensures
            old(self)@.wf(),
            final(self)@.wf(),
            final(self)@ == old(self)@.read_delay(x_of(opcode)),
    {
        proof {
            use_type_invariant(&*self);
        }
        let regx_loc: usize = field_x(opcode);
        self.regs[regx_loc] = self.delay_timer;
    }

    /// `FX0A`: suspends execution until a key is pressed; register `X` then
    /// receives the key's index.
    pub fn opcode_fx0a(&mut self, opcode: u16)
        ensures
            old(self)@.wf(),
            final(self)@.wf(),
            final(self)@ == old(self)@.wait_key(x_of(opcode)),
    {
        proof {
            use_type_invariant(&*self);
        }
        let regx_loc: usize = field_x(opcode);
        self.state = CpuState::AwaitingKey(regx_loc as u8);
    }

    /// `FX15`: sets the delay timer from register `X`.
    pub fn opcode_fx15(&mut self, opcode: u16)
        ensures
            old(self)@.wf(),
            final(self)@.wf(),
            final(self)@ == old(self)@.set_delay(x_of(opcode)),
    {
        proof {
            use_type_invariant(&*self);
        }
        let regx: u8 = self.regs[field_x(opcode)];
        self.delay_timer = regx;
    }

    /// `FX18`: sets the sound timer from register `X`.
    pub fn opcode_fx18(&mut self, opcode: u16)
        ensures
            old(self)@.wf(),
            final(self)@.wf(),
            final(self)@ == old(self)@.set_sound(x_of(opcode)),
    {
        proof {
            use_type_invariant(&*self);
        }
        let regx: u8 = self.regs[field_x(opcode)];
        self.sound_timer = regx;
    }

    /// `FX1E`: adds register `X` to the address register, wrapping at
    /// twelve bits.
    pub fn opcode_fx1e(&mut self, opcode: u16)
        ensures
            old(self)@.wf(),
            final(self)@.wf(),
            final(self)@ == old(self)@.add_addr(x_of(opcode)),
    {
        proof {
            use_type_invariant(&*self);
        }
        let regx: u16 = self.regs[field_x(opcode)] as u16;
        let sum: u16 = self.addr_reg + regx;
        assert(sum & 0x0FFF == sum % 0x1000) by (bit_vector);
        self.addr_reg = sum & 0x0FFF;
    }

    /// `FX29`: points the address register at the glyph for the low nibble
    /// of register `X`.
    pub fn opcode_fx29(&mut self, opcode: u16)
        ensures
            old(self)@.wf(),
            final(self)@.wf(),
            final(self)@ == old(self)@.glyph(x_of(opcode)),
    {
        proof {
            use_type_invariant(&*self);
        }
        let regx: u8 = self.regs[field_x(opcode)];
        let digit: u16 = (regx & 0x0F) as u16;
        assert(regx & 0x0F == regx % 0x10) by (bit_vector);
        self.addr_reg = FONT_BASE + GLYPH_LEN * digit;
    }

    /// `FX33`: stores the decimal digits of register `X`: the hundreds at
    /// the address register, the tens in the next cell, the ones in the
    /// one after.
    ///
    /// Fails, and changes nothing, where the three cells do not all lie
    /// within memory.
    pub fn opcode_fx33(&mut self, opcode: u16) -> (r: Result<(), CpuError>)
        ensures
            old(self)@.wf(),
            final(self)@.wf(),
            old(self)@.addr + 2 >= MEMORY_SIZE ==> r == Err::<(), CpuError>(
                CpuError::AddressOutOfRange,
            ) && final(self)@ == old(self)@,
            old(self)@.addr + 2 < MEMORY_SIZE ==> r == Ok::<(), CpuError>(()) && final(self)@
                == old(self)@.bcd(x_of(opcode)),
    {
        proof {
            use_type_invariant(&*self);
        }
        let regx: u8 = self.regs[field_x(opcode)];
        let at: usize = self.addr_reg as usize;
        if at + 2 >= 4096 {
            return Err(CpuError::AddressOutOfRange);
        }
        self.game_mem[at] = regx / 100;
        self.game_mem[at + 1] = (regx / 10) % 10;
        self.game_mem[at + 2] = regx % 10;
        Ok(())
    }

    /// `FX55`: stores registers 0 to `X` in memory, register `i` at the
    /// address register plus `i`. The address register keeps its value.
    ///
    /// Fails, and changes nothing, where the cells do not all lie within
    /// memory.
    pub fn opcode_fx55(&mut self, opcode: u16) -> (r: Result<(), CpuError>)
        ensures
            old(self)@.wf(),
            final(self)@.wf(),
            old(self)@.addr + x_of(opcode) >= MEMORY_SIZE ==> r == Err::<(), CpuError>(
                CpuError::AddressOutOfRange,
            ) && final(self)@ == old(self)@,
            old(self)@.addr + x_of(opcode) < MEMORY_SIZE ==> r == Ok::<(), CpuError>(())
                && final(self)@ == old(self)@.store(x_of(opcode)),
    {
        proof {
            use_type_invariant(&*self);
        }
        let regx: usize = field_x(opcode);
        let at: usize = self.addr_reg as usize;
        if at + regx >= 4096 {
            return Err(CpuError::AddressOutOfRange);
        }
        let regs: [u8; 16] = self.regs;
        let mut i: usize = 0;
        while i <= regx
            invariant
                regx < 16,
                at + regx < MEMORY_SIZE,
                i <= regx + 1,
                forall|a: int|
                    0 <= a < MEMORY_SIZE ==> self.game_mem@[a] == if at <= a < at + i {
                        regs@[a - at]
                    } else {
                        old(self).game_mem@[a]
                    },
                self.regs == old(self).regs,
                self.addr_reg == old(self).addr_reg,
                self.pc == old(self).pc,
                self.m_stack == old(self).m_stack,
                self.depth == old(self).depth,
                self.delay_timer == old(self).delay_timer,
                self.sound_timer == old(self).sound_timer,
                self.keyboard == old(self).keyboard,
                self.screen == old(self).screen,
                self.state == old(self).state,
            decreases regx + 1 - i,
        {
            proof {
                use_type_invariant(&*self);
            }
            self.game_mem[at + i] = regs[i];
            i = i + 1;
        }
        assert(self@.memory =~= old(self)@.store(x_of(opcode)).memory);
        Ok(())
    }

    /// `FX65`: loads registers 0 to `X` from memory, register `i` from the
    /// address register plus `i`. The address register keeps its value.
    ///
    /// Fails, and changes nothing, where the cells do not all lie within
    /// memory.
    pub fn opcode_fx65(&mut self, opcode: u16) -> (r: Result<(), CpuError>)
        ensures
            old(self)@.wf(),
            final(self)@.wf(),
            old(self)@.addr + x_of(opcode) >= MEMORY_SIZE ==> r == Err::<(), CpuError>(
                CpuError::AddressOutOfRange,
            ) && final(self)@ == old(self)@,
            old(self)@.addr + x_of(opcode) < MEMORY_SIZE ==> r == Ok::<(), CpuError>(())
                && final(self)@ == old(self)@.load(x_of(opcode)),
    {
        proof {
            use_type_invariant(&*self);
        }
        let regx: usize = field_x(opcode);
        let at: usize = self.addr_reg as usize;
        if at + regx >= 4096 {
            return Err(CpuError::AddressOutOfRange);
        }
        let mut i: usize = 0;
        while i <= regx
            invariant
                regx < 16,
                at + regx < MEMORY_SIZE,
                i <= regx + 1,
                forall|k: int|
                    0 <= k < 16 ==> self.regs@[k] == if k < i {
                        old(self).game_mem@[at + k]
                    } else {
                        old(self).regs@[k]
                    },
                self.game_mem == old(self).game_mem,
                self.addr_reg == old(self).addr_reg,
                self.pc == old(self).pc,
                self.m_stack == old(self).m_stack,
                self.depth == old(self).depth,
                self.delay_timer == old(self).delay_timer,
                self.sound_timer == old(self).sound_timer,
                self.keyboard == old(self).keyboard,
                self.screen == old(self).screen,
                self.state == old(self).state,
            decreases regx + 1 - i,
        {
            proof {
                use_type_invariant(&*self);
            }
            self.regs[i] = self.game_mem[at + i];
            i = i + 1;
        }
        assert(self@.regs =~= old(self)@.load(x_of(opcode)).regs);
        Ok(())
    }
}

} // verus!
