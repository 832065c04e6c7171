//! The interpreter: an executable machine whose every method is specified by
//! a transition of [`Machine`].

use crate::display::{cell, SCREEN_HEIGHT, SCREEN_WIDTH};
use crate::error::CpuError;
use crate::font::{FONT, FONT_BASE, FONT_LEN};
use crate::instruction::{
    decode, field_n, field_nn, field_nnn, field_x, field_y, lemma_fields_by_bits, Instruction,
};
use crate::machine::{
    CpuState, Machine, KEY_COUNT, MAX_IMAGE_LEN, MEMORY_SIZE, PROGRAM_START, REGISTER_COUNT,
    STACK_LIMIT,
};
use vstd::prelude::*;

mod alu;
mod cycle;
mod draw;
mod flow;
mod misc;

verus! {

/// An interpreter with the program it runs.
///
/// All state is owned by the value: two interpreters never share anything.
/// What a value stands for is its view, a [`Machine`].
#[derive(Debug)]
pub struct Cpu {
    game_mem: [u8; 4096],
    regs: [u8; 16],
    addr_reg: u16,
    pc: u16,
    /// The first `depth` cells hold the call stack, oldest first.
    m_stack: [u16; 16],
    depth: usize,
    delay_timer: u8,
    sound_timer: u8,
    keyboard: [bool; 16],
    screen: [bool; 2048],
    state: CpuState,
}

impl View for Cpu {
    type V = Machine;

    closed spec fn view(&self) -> Machine {
        Machine {
            memory: self.game_mem@,
            regs: self.regs@,
            addr: self.addr_reg,
            pc: self.pc,
            stack: self.m_stack@.take(self.depth as int),
            delay: self.delay_timer,
            sound: self.sound_timer,
            keys: self.keyboard@,
            screen: self.screen@,
            state: self.state,
        }
    }
}

impl Cpu {
    #[verifier::type_invariant]
    spec fn inv(&self) -> bool {
        &&& self.addr_reg <= 0xFFF
        &&& self.depth <= STACK_LIMIT
        &&& (self.state matches CpuState::AwaitingKey(x) ==> x < REGISTER_COUNT)
    }

    /// An interpreter that is about to run the program `image`.
    ///
    /// The glyph table and the image are in memory, the program counter is
    /// at the image's first byte, everything else is zero. An image of more
    /// than `MAX_IMAGE_LEN` bytes does not fit and is refused.
    pub fn new(image: &[u8]) -> (r: Result<Cpu, CpuError>)
        ensures
            image@.len() <= MAX_IMAGE_LEN ==> (r matches Ok(cpu) && cpu@ == Machine::boot(image@)
                && cpu@.wf()),
            image@.len() > MAX_IMAGE_LEN ==> r == Err::<Cpu, CpuError>(CpuError::ImageTooLarge),
    {
        if image.len() > MAX_IMAGE_LEN {
            return Err(CpuError::ImageTooLarge);
        }
        let mut mem = Cpu::init_mem(image);
        Cpu::init_font(&mut mem);
        let cpu = Cpu {
            game_mem: mem,
            regs: [0u8; 16],
            addr_reg: 0,
            pc: PROGRAM_START,
            m_stack: [0u16; 16],
            depth: 0,
            delay_timer: 0,
            sound_timer: 0,
            keyboard: [false; 16],
            screen: [false; 2048],
            state: CpuState::Running,
        };
        proof {
            let boot = Machine::boot(image@);
            assert(cpu@.memory =~= boot.memory);
            assert(cpu@.regs =~= boot.regs);
            assert(cpu@.stack =~= boot.stack);
            assert(cpu@.keys =~= boot.keys);
            assert(cpu@.screen =~= boot.screen);
        }
        Ok(cpu)
    }

    /// Memory that is zero but for `bytes`, which start at `PROGRAM_START`.
    fn init_mem(bytes: &[u8]) -> (mem: [u8; 4096])
        requires
            bytes@.len() <= MAX_IMAGE_LEN,
        ensures
            forall|a: int|
                0 <= a < MEMORY_SIZE ==> mem@[a] == if PROGRAM_START <= a < PROGRAM_START
                    + bytes@.len() {
                    bytes@[a - PROGRAM_START]
                } else {
                    0u8
                },
    {
        let mut mem = [0u8; 4096];
        let len: usize = bytes.len();
        let mut i: usize = 0;
        while i < len
            invariant
                len == bytes@.len(),
                len <= MAX_IMAGE_LEN,
                i <= len,
                forall|a: int|
                    0 <= a < MEMORY_SIZE ==> mem@[a] == if PROGRAM_START <= a < PROGRAM_START + i {
                        bytes@[a - PROGRAM_START]
                    } else {
                        0u8
                    },
            decreases len - i,
        {
            mem[i + 0x200] = bytes[i];
            i = i + 1;
        }
        mem
    }

    /// Copies the glyph table to its place, `FONT_BASE` and the cells after
    /// it.
    fn init_font(bytes: &mut [u8; 4096])
        ensures
            forall|a: int|
                0 <= a < MEMORY_SIZE ==> final(bytes)@[a] == if FONT_BASE <= a < FONT_BASE
                    + FONT_LEN {
                    FONT@[a - FONT_BASE]
                } else {
                    old(bytes)@[a]
                },
    {
        let mut i: usize = 0;
        while i < 80
            invariant
                i <= 80,
                forall|a: int|
                    0 <= a < MEMORY_SIZE ==> bytes@[a] == if FONT_BASE <= a < FONT_BASE + i {
                        FONT@[a - FONT_BASE]
                    } else {
                        old(bytes)@[a]
                    },
            decreases 80 - i,
        {
            bytes[i + 0x50] = FONT[i];
            i = i + 1;
        }
    }

    /// Fetches the instruction word at the program counter, high byte
    /// first, and moves the program counter past it.
    ///
    /// Fails, and changes nothing, where the word does not lie within
    /// memory.
    pub fn get_opcode(&mut self) -> (r: Result<u16, CpuError>)
        ensures
            old(self)@.wf(),
            final(self)@.wf(),
            old(self)@.pc + 1 >= MEMORY_SIZE ==> r == Err::<u16, CpuError>(
                CpuError::AddressOutOfRange,
            ) && final(self)@ == old(self)@,
            old(self)@.pc + 1 < MEMORY_SIZE ==> r == Ok::<u16, CpuError>(
                old(self)@.word_at(old(self)@.pc as int),
            ) && final(self)@ == old(self)@.next(),
    {
        proof {
            use_type_invariant(&*self);
        }
        if self.pc >= 0xFFF {
            return Err(CpuError::AddressOutOfRange);
        }
        let high: u16 = self.game_mem[self.pc as usize] as u16;
        let low: u16 = self.game_mem[self.pc as usize + 1] as u16;
        let opcode: u16 = (high << 8) | low;
        assert(high < 0x100 && low < 0x100 ==> (high << 8) | low == high * 0x100 + low)
            by (bit_vector);
        self.pc = self.pc + 2;
        Ok(opcode)
    }

    /// Decodes an instruction word.
    ///
    /// Fails with `InvalidOpcode` exactly where the word encodes no
    /// instruction.
    pub fn decode_opcode(opcode: u16) -> (r: Result<Instruction, CpuError>)
        ensures
            r == decode(opcode),
    {
        let x: u8 = field_x(opcode) as u8;
        let y: u8 = field_y(opcode) as u8;
        let n: u8 = field_n(opcode);
        let nn: u8 = field_nn(opcode);
        let nnn: u16 = field_nnn(opcode);
        proof {
            lemma_fields_by_bits(opcode);
        }
        match opcode >> 12 {
            0x0 => match opcode {
                0x00E0 => Ok(Instruction::ClearScreen),
                0x00EE => Ok(Instruction::Return),
                _ => Err(CpuError::InvalidOpcode),
            },
            0x1 => Ok(Instruction::Jump { nnn }),
            0x2 => Ok(Instruction::Call { nnn }),
            0x3 => Ok(Instruction::SkipEqImm { x, nn }),
            0x4 => Ok(Instruction::SkipNeImm { x, nn }),
            0x5 => match n {
                0x0 => Ok(Instruction::SkipEqReg { x, y }),
                _ => Err(CpuError::InvalidOpcode),
            },
            0x6 => Ok(Instruction::LoadImm { x, nn }),
            0x7 => Ok(Instruction::AddImm { x, nn }),
            0x8 => match n {
                0x0 => Ok(Instruction::Move { x, y }),
                0x1 => Ok(Instruction::Or { x, y }),
                0x2 => Ok(Instruction::And { x, y }),
                0x3 => Ok(Instruction::Xor { x, y }),
                0x4 => Ok(Instruction::AddReg { x, y }),
                0x5 => Ok(Instruction::SubReg { x, y }),
                0x6 => Ok(Instruction::ShiftLow { x, y }),
                0x7 => Ok(Instruction::SubFrom { x, y }),
                0xE => Ok(Instruction::ShiftHigh { x, y }),
                _ => Err(CpuError::InvalidOpcode),
            },
            0x9 => match n {
                0x0 => Ok(Instruction::SkipNeReg { x, y }),
                _ => Err(CpuError::InvalidOpcode),
            },
            0xA => Ok(Instruction::LoadAddr { nnn }),
            0xB => Ok(Instruction::JumpOffset { nnn }),
            0xC => Ok(Instruction::Random { x, nn }),
            0xD => Ok(Instruction::Draw { x, y, n }),
            0xE => match nn {
                0x9E => Ok(Instruction::SkipKey { x }),
                0xA1 => Ok(Instruction::SkipNoKey { x }),
                _ => Err(CpuError::InvalidOpcode),
            },
            _ => match nn {
                0x07 => Ok(Instruction::ReadDelay { x }),
                0x0A => Ok(Instruction::WaitKey { x }),
                0x15 => Ok(Instruction::SetDelay { x }),
                0x18 => Ok(Instruction::SetSound { x }),
                0x1E => Ok(Instruction::AddAddr { x }),
                0x29 => Ok(Instruction::Glyph { x }),
                0x33 => Ok(Instruction::Bcd { x }),
                0x55 => Ok(Instruction::Store { x }),
                0x65 => Ok(Instruction::Load { x }),
                _ => Err(CpuError::InvalidOpcode),
            },
        }
    }
}

impl Cpu {
    /// Lets one tick of the timers' clock pass: the delay timer and the
    /// sound timer each lose 1, unless at 0 already. This is the only way
    /// in which a timer counts down.
    pub fn tick_timers(&mut self)
        ensures
            old(self)@.wf(),
            final(self)@.wf(),
            final(self)@ == old(self)@.tick(),
    {
        proof {
            use_type_invariant(&*self);
        }
        if self.delay_timer > 0 {
            self.delay_timer = self.delay_timer - 1;
        }
        if self.sound_timer > 0 {
            self.sound_timer = self.sound_timer - 1;
        }
    }

    /// Records that key `index` went down (`pressed`) or up.
    ///
    /// A key going down ends a wait for a key: the register named by the
    /// instruction that began the wait receives `index`, and the
    /// interpreter runs again.
    pub fn set_key(&mut self, index: usize, pressed: bool)
        requires
            index < KEY_COUNT,
        ensures
            old(self)@.wf(),
            final(self)@.wf(),
            final(self)@ == old(self)@.key_event(index as int, pressed),
    {
        proof {
            use_type_invariant(&*self);
        }
        self.keyboard[index] = pressed;
        if pressed {
            match self.state {
                CpuState::AwaitingKey(x) => {
                    self.regs[x as usize] = index as u8;
                    self.state = CpuState::Running;
                },
                CpuState::Running => {},
            }
        }
    }

    /// Whether the interpreter runs or waits for a key.
    pub fn state(&self) -> (state: CpuState)
        ensures
            self@.wf(),
            state == self@.state,
    {
        proof {
            use_type_invariant(self);
        }
        self.state
    }

    /// The program counter.
    pub fn pc(&self) -> (pc: u16)
        ensures
            self@.wf(),
            pc == self@.pc,
    {
        proof {
            use_type_invariant(self);
        }
        self.pc
    }

    /// The address register.
    pub fn addr_reg(&self) -> (addr: u16)
        ensures
            self@.wf(),
            addr == self@.addr,
    {
        proof {
            use_type_invariant(self);
        }
        self.addr_reg
    }

    /// The delay timer.
    pub fn delay_timer(&self) -> (timer: u8)
        ensures
            self@.wf(),
            timer == self@.delay,
    {
        proof {
            use_type_invariant(self);
        }
        self.delay_timer
    }

    /// The sound timer; a tone is due while it is above 0.
    pub fn sound_timer(&self) -> (timer: u8)
        ensures
            self@.wf(),
            timer == self@.sound,
    {
        proof {
            use_type_invariant(self);
        }
        self.sound_timer
    }

    /// The general-purpose registers.
    pub fn registers(&self) -> (regs: &[u8; 16])
        ensures
            self@.wf(),
            regs@ == self@.regs,
    {
        proof {
            use_type_invariant(self);
        }
        &self.regs
    }

    /// The memory cells.
    pub fn memory(&self) -> (mem: &[u8; 4096])
        ensures
            self@.wf(),
            mem@ == self@.memory,
    {
        proof {
            use_type_invariant(self);
        }
        &self.game_mem
    }

    /// For each key whether it is held down.
    pub fn keys(&self) -> (keys: &[bool; 16])
        ensures
            self@.wf(),
            keys@ == self@.keys,
    {
        proof {
            use_type_invariant(self);
        }
        &self.keyboard
    }

    /// The saved program counters of the calls in progress, oldest first.
    pub fn stack(&self) -> (stack: Vec<u16>)
        ensures
            self@.wf(),
            stack@ == self@.stack,
    {
        proof {
            use_type_invariant(self);
        }
        let mut stack: Vec<u16> = Vec::new();
        let mut i: usize = 0;
        while i < self.depth
            invariant
                self.depth <= STACK_LIMIT,
                i <= self.depth,
                stack@ == self.m_stack@.take(i as int),
            decreases self.depth - i,
        {
            stack.push(self.m_stack[i]);
            assert(self.m_stack@.take(i + 1) =~= self.m_stack@.take(i as int).push(
                self.m_stack@[i as int],
            ));
            i = i + 1;
        }
        stack
    }

    /// The frame: the pixels row by row, `SCREEN_WIDTH` to a row.
    pub fn framebuffer(&self) -> (frame: &[bool; 2048])
        ensures
            self@.wf(),
            frame@ == self@.screen,
    {
        proof {
            use_type_invariant(self);
        }
        &self.screen
    }

    /// Whether the pixel in column `x` of row `y` is on; `None` where the
    /// frame has no such pixel.
    pub fn pixel(&self, x: usize, y: usize) -> (pixel: Option<bool>)
        ensures
            self@.wf(),
            pixel == if x < SCREEN_WIDTH && y < SCREEN_HEIGHT {
                Some(self@.screen[cell(x as int, y as int)])
            } else {
                None
            },
    {
        proof {
            use_type_invariant(self);
        }
        if x < SCREEN_WIDTH && y < SCREEN_HEIGHT {
            Some(self.screen[y * SCREEN_WIDTH + x])
        } else {
            None
        }
    }
}

impl Clone for Cpu {
    /// A second interpreter in the same state, independent of this one.
    fn clone(&self) -> (cpu: Cpu)
        ensures
            cpu@ == self@,
    {
        proof {
            use_type_invariant(self);
        }
        Cpu {
            game_mem: self.game_mem,
            regs: self.regs,
            addr_reg: self.addr_reg,
            pc: self.pc,
            m_stack: self.m_stack,
            depth: self.depth,
            delay_timer: self.delay_timer,
            sound_timer: self.sound_timer,
            keyboard: self.keyboard,
            screen: self.screen,
            state: self.state,
        }
    }
}

impl Default for Cpu {
    /// An interpreter with an empty program.
    fn default() -> (cpu: Cpu)
        ensures
            cpu@ == Machine::boot(Seq::empty()),
            cpu@.wf(),
    {
        let mut mem = [0u8; 4096];
        Cpu::init_font(&mut mem);
        let cpu = Cpu {
            game_mem: mem,
            regs: [0u8; 16],
            addr_reg: 0,
            pc: PROGRAM_START,
            m_stack: [0u16; 16],
            depth: 0,
            delay_timer: 0,
            sound_timer: 0,
            keyboard: [false; 16],
            screen: [false; 2048],
            state: CpuState::Running,
        };
        proof {
            let boot = Machine::boot(Seq::empty());
            assert(cpu@.memory =~= boot.memory);
            assert(cpu@.regs =~= boot.regs);
            assert(cpu@.stack =~= boot.stack);
            assert(cpu@.keys =~= boot.keys);
            assert(cpu@.screen =~= boot.screen);
        }
        cpu
    }
}

} // verus!
