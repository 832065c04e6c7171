//! The machine as a mathematical object, and what each instruction does to it.
//!
//! [`Machine`] is the view of a running interpreter: memory, registers,
//! program counter, call stack, timers, keys and frame. Every transition is a
//! function from machines to machines; the contracts of the interpreter's
//! methods are stated over them.

use crate::display::{blank, collides, drawn, SCREEN_CELLS};
use crate::error::CpuError;
use crate::font::{glyph_address, FONT, FONT_BASE, FONT_LEN};
use crate::instruction::{decode, Instruction};
use vstd::prelude::*;

verus! {

/// The number of memory cells.
pub const MEMORY_SIZE: usize = 4096;

/// The address at which a program image is loaded and execution starts.
pub const PROGRAM_START: u16 = 0x200;

/// The largest program image that fits between `PROGRAM_START` and the end
/// of memory.
pub const MAX_IMAGE_LEN: usize = 3584;

/// The greatest depth of nested subroutine calls.
pub const STACK_LIMIT: usize = 16;

/// The number of general-purpose registers.
pub const REGISTER_COUNT: usize = 16;

/// The number of keys.
pub const KEY_COUNT: usize = 16;

/// The register that doubles as the carry, borrow and collision flag.
pub const FLAG: usize = 0xF;

/// Whether the interpreter executes instructions or waits for a key.
#[derive(Clone, Copy, Debug, PartialEq, Eq, Structural)]
pub enum CpuState {
    /// The next step fetches and executes an instruction.
    Running,
    /// Execution is suspended until a key is pressed; the key's index then
    /// goes to the register given here.
    AwaitingKey(u8),
}

/// The complete state of the machine.
#[verifier::ext_equal]
pub struct Machine {
    /// The memory cells.
    pub memory: Seq<u8>,
    /// The general-purpose registers; the last one is the flag.
    pub regs: Seq<u8>,
    /// The address register.
    pub addr: u16,
    /// The program counter.
    pub pc: u16,
    /// The saved program counters of the calls in progress, oldest first.
    pub stack: Seq<u16>,
    /// The delay timer.
    pub delay: u8,
    /// The sound timer.
    pub sound: u8,
    /// For each key whether it is held down.
    pub keys: Seq<bool>,
    /// The pixels, row by row.
    pub screen: Seq<bool>,
    /// Whether the machine runs or waits for a key.
    pub state: CpuState,
}

/// Memory as it is before the first instruction runs: the glyph table at
/// `FONT_BASE`, the image at `PROGRAM_START`, zero elsewhere.
pub open spec fn initial_memory(image: Seq<u8>) -> Seq<u8> {
    Seq::new(
        MEMORY_SIZE as nat,
        |a: int|
            if FONT_BASE <= a < FONT_BASE + FONT_LEN {
                FONT@[a - FONT_BASE]
            } else if PROGRAM_START <= a < PROGRAM_START + image.len() {
                image[a - PROGRAM_START]
            } else {
                0u8
            },
    )
}

/// A timer after one tick: one less, but never below zero.
pub open spec fn ticked(timer: u8) -> u8 {
    if timer > 0 {
        (timer - 1) as u8
    } else {
        0u8
    }
}

/// A timer after `n` ticks.
pub open spec fn ticked_times(timer: u8, n: nat) -> u8
    decreases n,
{
    if n == 0 {
        timer
    } else {
        ticked(ticked_times(timer, (n - 1) as nat))
    }
}

impl Machine {
    /// The shape that every machine keeps: the sizes of its parts, an address
    /// register of twelve bits, a bounded call stack, and a valid register
    /// to receive the awaited key.
    pub open spec fn wf(self) -> bool {
        &&& self.memory.len() == MEMORY_SIZE
        &&& self.regs.len() == REGISTER_COUNT
        &&& self.addr <= 0xFFF
        &&& self.stack.len() <= STACK_LIMIT
        &&& self.keys.len() == KEY_COUNT
        &&& self.screen.len() == SCREEN_CELLS
        &&& (self.state matches CpuState::AwaitingKey(x) ==> x < REGISTER_COUNT)
    }

    /// The machine that a program image starts in.
    pub open spec fn boot(image: Seq<u8>) -> Machine {
        Machine {
            memory: initial_memory(image),
            regs: Seq::new(REGISTER_COUNT as nat, |i: int| 0u8),
            addr: 0,
            pc: PROGRAM_START,
            stack: Seq::empty(),
            delay: 0,
            sound: 0,
            keys: Seq::new(KEY_COUNT as nat, |i: int| false),
            screen: blank(),
            state: CpuState::Running,
        }
    }

    /// The instruction word stored at address `a`, high byte first.
    pub open spec fn word_at(self, a: int) -> u16 {
        (self.memory[a] as int * 0x100 + self.memory[a + 1] as int) as u16
    }

    /// Whether key `k` is held down. A value above 15 names no key.
    pub open spec fn key_pressed(self, k: u8) -> bool {
        k < KEY_COUNT && self.keys[k as int]
    }

    /// The program counter moved past one instruction, wrapping at 16 bits.
    pub open spec fn next(self) -> Machine {
        Machine { pc: ((self.pc + 2) % 0x1_0000) as u16, ..self }
    }

    /// The next instruction skipped if `cond` holds.
    pub open spec fn skip_if(self, cond: bool) -> Machine {
        if cond {
            self.next()
        } else {
            self
        }
    }

    /// Register `x` set to `v`.
    pub open spec fn set_reg(self, x: int, v: u8) -> Machine {
        Machine { regs: self.regs.update(x, v), ..self }
    }

    /// The flag register set to `flag`, then register `x` set to `v`: where
    /// `x` is the flag register itself, `v` is what it holds afterwards.
    pub open spec fn set_flag_then_reg(self, flag: u8, x: int, v: u8) -> Machine {
        Machine { regs: self.regs.update(FLAG as int, flag).update(x, v), ..self }
    }

    /// `00E0`: every pixel off.
    pub open spec fn clear_screen(self) -> Machine {
        Machine { screen: blank(), ..self }
    }

    /// `00EE`: the youngest saved program counter taken off the stack.
    pub open spec fn ret(self) -> Machine {
        Machine { pc: self.stack.last(), stack: self.stack.drop_last(), ..self }
    }

    /// `1NNN`: the program counter set to `nnn`.
    pub open spec fn jump(self, nnn: u16) -> Machine {
        Machine { pc: nnn, ..self }
    }

    /// `2NNN`: the program counter saved on the stack, then set to `nnn`.
    pub open spec fn call(self, nnn: u16) -> Machine {
        Machine { pc: nnn, stack: self.stack.push(self.pc), ..self }
    }

    /// `3XNN`: skip if register `x` equals `nn`.
    pub open spec fn skip_eq_imm(self, x: int, nn: u8) -> Machine {
        self.skip_if(self.regs[x] == nn)
    }

    /// `4XNN`: skip if register `x` differs from `nn`.
    pub open spec fn skip_ne_imm(self, x: int, nn: u8) -> Machine {
        self.skip_if(self.regs[x] != nn)
    }

    /// `5XY0`: skip if registers `x` and `y` are equal.
    pub open spec fn skip_eq_reg(self, x: int, y: int) -> Machine {
        self.skip_if(self.regs[x] == self.regs[y])
    }

    /// `9XY0`: skip if registers `x` and `y` differ.
    pub open spec fn skip_ne_reg(self, x: int, y: int) -> Machine {
        self.skip_if(self.regs[x] != self.regs[y])
    }

    /// `EX9E`: skip if the key named by register `x` is held down.
    pub open spec fn skip_key(self, x: int) -> Machine {
        self.skip_if(self.key_pressed(self.regs[x]))
    }

    /// `EXA1`: skip if the key named by register `x` is not held down.
    pub open spec fn skip_no_key(self, x: int) -> Machine {
        self.skip_if(!self.key_pressed(self.regs[x]))
    }

    /// `6XNN`: register `x` set to `nn`.
    pub open spec fn load_imm(self, x: int, nn: u8) -> Machine {
        self.set_reg(x, nn)
    }

    /// `7XNN`: `nn` added to register `x` modulo 256; the flag is untouched.
    pub open spec fn add_imm(self, x: int, nn: u8) -> Machine {
        self.set_reg(x, ((self.regs[x] + nn) % 0x100) as u8)
    }

    /// `8XY0`: register `y` copied to register `x`.
    pub open spec fn mov(self, x: int, y: int) -> Machine {
        self.set_reg(x, self.regs[y])
    }

    /// `8XY1`: bitwise or.
    pub open spec fn or(self, x: int, y: int) -> Machine {
        self.set_reg(x, self.regs[x] | self.regs[y])
    }

    /// `8XY2`: bitwise and.
    pub open spec fn and(self, x: int, y: int) -> Machine {
        self.set_reg(x, self.regs[x] & self.regs[y])
    }

    /// `8XY3`: bitwise exclusive or.
    pub open spec fn xor(self, x: int, y: int) -> Machine {
        self.set_reg(x, self.regs[x] ^ self.regs[y])
    }

    /// `8XY4`: the sum modulo 256; the flag is 1 if the sum exceeds 255.
    pub open spec fn add_reg(self, x: int, y: int) -> Machine {
        let sum = self.regs[x] + self.regs[y];
        self.set_flag_then_reg(if sum > 0xFF { 1u8 } else { 0u8 }, x, (sum % 0x100) as u8)
    }

    /// `8XY5`: register `x` minus register `y` modulo 256; the flag is 1 if
    /// no borrow occurs.
    pub open spec fn sub_reg(self, x: int, y: int) -> Machine {
        let a = self.regs[x];
        let b = self.regs[y];
        self.set_flag_then_reg(if a >= b { 1u8 } else { 0u8 }, x, ((a - b) % 0x100) as u8)
    }

    /// `8XY7`: register `y` minus register `x` modulo 256; the flag is 1 if
    /// no borrow occurs.
    pub open spec fn sub_from(self, x: int, y: int) -> Machine {
        let a = self.regs[x];
        let b = self.regs[y];
        self.set_flag_then_reg(if b >= a { 1u8 } else { 0u8 }, x, ((b - a) % 0x100) as u8)
    }

    /// `8XY6`: the flag is the lowest bit of register `y`; register `x` is
    /// register `y` doubled modulo 256.
    pub open spec fn shift_low(self, x: int, y: int) -> Machine {
        let b = self.regs[y];
        self.set_flag_then_reg((b % 2) as u8, x, ((b * 2) % 0x100) as u8)
    }

    /// `8XYE`: the flag is the highest bit of register `y`; register `x` is
    /// register `y` doubled modulo 256.
    pub open spec fn shift_high(self, x: int, y: int) -> Machine {
        let b = self.regs[y];
        self.set_flag_then_reg((b / 0x80) as u8, x, ((b * 2) % 0x100) as u8)
    }

    /// `ANNN`: the address register set to `nnn`.
    pub open spec fn load_addr(self, nnn: u16) -> Machine {
        Machine { addr: nnn, ..self }
    }

    /// `BNNN`: the program counter set to `nnn` plus register 0.
    pub open spec fn jump_offset(self, nnn: u16) -> Machine {
        Machine { pc: (nnn + self.regs[0]) as u16, ..self }
    }

    /// `CXNN`: register `x` set to the byte `rnd` masked by `nn`.
    pub open spec fn random(self, x: int, nn: u8, rnd: u8) -> Machine {
        self.set_reg(x, rnd & nn)
    }

    /// The `n` sprite rows that the address register points at.
    pub open spec fn sprite(self, n: int) -> Seq<u8> {
        self.memory.subrange(self.addr as int, self.addr + n)
    }

    /// `DXYN`: the sprite of `n` rows at the address register drawn at the
    /// position held in registers `x` and `y`; the flag is 1 if that switched
    /// a pixel off, else 0.
    pub open spec fn draw(self, x: int, y: int, n: int) -> Machine {
        let sprite = self.sprite(n);
        let col = self.regs[x] as int;
        let row = self.regs[y] as int;
        let flag = if collides(self.screen, sprite, col, row) {
            1u8
        } else {
            0u8
        };
        Machine {
            screen: drawn(self.screen, sprite, col, row),
            regs: self.regs.update(FLAG as int, flag),
            ..self
        }
    }

    /// `FX07`: the delay timer copied to register `x`.
    pub open spec fn read_delay(self, x: int) -> Machine {
        self.set_reg(x, self.delay)
    }

    /// `FX0A`: the machine suspended until a key is pressed.
    pub open spec fn wait_key(self, x: int) -> Machine {
        Machine { state: CpuState::AwaitingKey(x as u8), ..self }
    }

    /// `FX15`: the delay timer set from register `x`.
    pub open spec fn set_delay(self, x: int) -> Machine {
        Machine { delay: self.regs[x], ..self }
    }

    /// `FX18`: the sound timer set from register `x`.
    pub open spec fn set_sound(self, x: int) -> Machine {
        Machine { sound: self.regs[x], ..self }
    }

    /// `FX1E`: register `x` added to the address register modulo 4096.
    pub open spec fn add_addr(self, x: int) -> Machine {
        Machine { addr: ((self.addr + self.regs[x]) % 0x1000) as u16, ..self }
    }

    /// `FX29`: the address register pointed at the glyph for the low nibble
    /// of register `x`.
    pub open spec fn glyph(self, x: int) -> Machine {
        Machine { addr: glyph_address(self.regs[x] as int % 0x10) as u16, ..self }
    }

    /// `FX33`: the hundreds, tens and ones of register `x` stored at the
    /// address register and the two cells after it.
    pub open spec fn bcd(self, x: int) -> Machine {
        let v = self.regs[x] as int;
        let a = self.addr as int;
        Machine {
            memory: self.memory.update(a, (v / 100) as u8).update(
                a + 1,
                ((v / 10) % 10) as u8,
            ).update(a + 2, (v % 10) as u8),
            ..self
        }
    }

    /// `FX55`: registers 0 to `x` stored from the address register on.
    pub open spec fn store(self, x: int) -> Machine {
        let a = self.addr as int;
        Machine {
            memory: Seq::new(
                MEMORY_SIZE as nat,
                |i: int|
                    if a <= i <= a + x {
                        self.regs[i - a]
                    } else {
                        self.memory[i]
                    },
            ),
            ..self
        }
    }

    /// `FX65`: registers 0 to `x` loaded from the address register on.
    pub open spec fn load(self, x: int) -> Machine {
        let a = self.addr as int;
        Machine {
            regs: Seq::new(
                REGISTER_COUNT as nat,
                |i: int|
                    if i <= x {
                        self.memory[a + i]
                    } else {
                        self.regs[i]
                    },
            ),
            ..self
        }
    }

    /// Both timers after one tick.
    pub open spec fn tick(self) -> Machine {
        Machine { delay: ticked(self.delay), sound: ticked(self.sound), ..self }
    }

    /// The machine after key `index` went down (`pressed`) or up. A press
    /// ends a wait for a key: the awaited register receives the index.
    pub open spec fn key_event(self, index: int, pressed: bool) -> Machine {
        let keys = self.keys.update(index, pressed);
        match self.state {
            CpuState::AwaitingKey(x) if pressed => Machine {
                keys,
                regs: self.regs.update(x as int, index as u8),
                state: CpuState::Running,
                ..self
            },
            _ => Machine { keys, ..self },
        }
    }

    /// The error with which an instruction fails on this machine, if it
    /// does.
    pub open spec fn fault(self, instr: Instruction) -> Option<CpuError> {
        match instr {
            Instruction::Return if self.stack.len() == 0 => Some(CpuError::StackUnderflow),
            Instruction::Call { nnn } if self.stack.len() >= STACK_LIMIT => Some(
                CpuError::StackOverflow,
            ),
            Instruction::Draw { x, y, n } if self.addr + n > MEMORY_SIZE => Some(
                CpuError::AddressOutOfRange,
            ),
            Instruction::Bcd { x } if self.addr + 2 >= MEMORY_SIZE => Some(
                CpuError::AddressOutOfRange,
            ),
            Instruction::Store { x } if self.addr + x >= MEMORY_SIZE => Some(
                CpuError::AddressOutOfRange,
            ),
            Instruction::Load { x } if self.addr + x >= MEMORY_SIZE => Some(
                CpuError::AddressOutOfRange,
            ),
            _ => None,
        }
    }

    /// The machine after an instruction that does not fail; `rnd` is the
    /// byte that a `Random` instruction draws.
    pub open spec fn apply(self, instr: Instruction, rnd: u8) -> Machine {
        match instr {
            Instruction::ClearScreen => self.clear_screen(),
            Instruction::Return => self.ret(),
            Instruction::Jump { nnn } => self.jump(nnn),
            Instruction::Call { nnn } => self.call(nnn),
            Instruction::SkipEqImm { x, nn } => self.skip_eq_imm(x as int, nn),
            Instruction::SkipNeImm { x, nn } => self.skip_ne_imm(x as int, nn),
            Instruction::SkipEqReg { x, y } => self.skip_eq_reg(x as int, y as int),
            Instruction::LoadImm { x, nn } => self.load_imm(x as int, nn),
            Instruction::AddImm { x, nn } => self.add_imm(x as int, nn),
            Instruction::Move { x, y } => self.mov(x as int, y as int),
            Instruction::Or { x, y } => self.or(x as int, y as int),
            Instruction::And { x, y } => self.and(x as int, y as int),
            Instruction::Xor { x, y } => self.xor(x as int, y as int),
            Instruction::AddReg { x, y } => self.add_reg(x as int, y as int),
            Instruction::SubReg { x, y } => self.sub_reg(x as int, y as int),
            Instruction::ShiftLow { x, y } => self.shift_low(x as int, y as int),
            Instruction::SubFrom { x, y } => self.sub_from(x as int, y as int),
            Instruction::ShiftHigh { x, y } => self.shift_high(x as int, y as int),
            Instruction::SkipNeReg { x, y } => self.skip_ne_reg(x as int, y as int),
            Instruction::LoadAddr { nnn } => self.load_addr(nnn),
            Instruction::JumpOffset { nnn } => self.jump_offset(nnn),
            Instruction::Random { x, nn } => self.random(x as int, nn, rnd),
            Instruction::Draw { x, y, n } => self.draw(x as int, y as int, n as int),
            Instruction::SkipKey { x } => self.skip_key(x as int),
            Instruction::SkipNoKey { x } => self.skip_no_key(x as int),
            Instruction::ReadDelay { x } => self.read_delay(x as int),
            Instruction::WaitKey { x } => self.wait_key(x as int),
            Instruction::SetDelay { x } => self.set_delay(x as int),
            Instruction::SetSound { x } => self.set_sound(x as int),
            Instruction::AddAddr { x } => self.add_addr(x as int),
            Instruction::Glyph { x } => self.glyph(x as int),
            Instruction::Bcd { x } => self.bcd(x as int),
            Instruction::Store { x } => self.store(x as int),
            Instruction::Load { x } => self.load(x as int),
        }
    }

    /// The machine after executing the instruction word `opcode`, and how
    /// that went. A word that encodes no instruction, and an instruction
    /// that fails, leave the machine as it was.
    pub open spec fn execute(self, opcode: u16, rnd: u8) -> (Machine, Result<(), CpuError>) {
        match decode(opcode) {
            Err(e) => (self, Err(e)),
            Ok(instr) => match self.fault(instr) {
                Some(e) => (self, Err(e)),
                None => (self.apply(instr, rnd), Ok(())),
            },
        }
    }

    /// The machine after one step, and how the step went.
    ///
    /// A waiting machine stays as it is. A running machine fetches the word
    /// at the program counter, moves the program counter past it and
    /// executes it. Where the word cannot be fetched or executed, the
    /// machine stays as it was before the step.
    pub open spec fn step(self, rnd: u8) -> (Machine, Result<CpuState, CpuError>) {
        if self.state is AwaitingKey {
            (self, Ok(self.state))
        } else if self.pc + 1 >= MEMORY_SIZE {
            (self, Err(CpuError::AddressOutOfRange))
        } else {
            let (after, result) = self.next().execute(self.word_at(self.pc as int), rnd);
            match result {
                Ok(_) => (after, Ok(after.state)),
                Err(e) => (self, Err(e)),
            }
        }
    }

    /// The machine after as many steps as `rnds` has bytes, one byte handed
    /// to each step, and how the last of them went. Once a step has failed,
    /// the steps after it change nothing and the failure stands.
    pub open spec fn run(self, rnds: Seq<u8>) -> (Machine, Result<CpuState, CpuError>)
        decreases rnds.len(),
    {
        if rnds.len() == 0 {
            (self, Ok(self.state))
        } else {
            let (before, result) = self.run(rnds.drop_last());
            match result {
                Ok(_) => before.step(rnds.last()),
                Err(e) => (before, Err(e)),
            }
        }
    }
}

} // verus!
