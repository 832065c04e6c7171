//! Instruction words: their operand fields and the instruction each one encodes.
//!
//! An instruction is one 16-bit word. Its four nibbles, most significant
//! first, are written `TXYN`; `NN` is the low byte and `NNN` the low twelve
//! bits. The top nibble selects a family; the families `0`, `8`, `E` and `F`
//! are told apart further by the low nibble or the low byte.

use crate::error::CpuError;
use vstd::prelude::*;

verus! {

/// The top nibble of an instruction word, which selects its family.
pub open spec fn family_of(opcode: u16) -> int {
    opcode as int / 0x1000
}

/// The `X` field of an instruction word: a register index.
pub open spec fn x_of(opcode: u16) -> int {
    (opcode as int / 0x100) % 0x10
}

/// The `Y` field of an instruction word: a register index.
pub open spec fn y_of(opcode: u16) -> int {
    (opcode as int / 0x10) % 0x10
}

/// The `N` field of an instruction word: its low nibble.
pub open spec fn n_of(opcode: u16) -> int {
    opcode as int % 0x10
}

/// The `NN` field of an instruction word: its low byte.
pub open spec fn nn_of(opcode: u16) -> u8 {
    (opcode as int % 0x100) as u8
}

/// The `NNN` field of an instruction word: its low twelve bits, an address.
pub open spec fn nnn_of(opcode: u16) -> u16 {
    (opcode as int % 0x1000) as u16
}

/// One decoded instruction with its operands.
///
/// `x` and `y` are register indices, `nn` an immediate byte, `nnn` an
/// address and `n` a row count.
#[derive(Clone, Copy, Debug, PartialEq, Eq, Structural)]
pub enum Instruction {
    /// `00E0`: switch every pixel off.
    ClearScreen,
    /// `00EE`: return from a subroutine.
    Return,
    /// `1NNN`: jump to `nnn`.
    Jump { nnn: u16 },
    /// `2NNN`: call the subroutine at `nnn`.
    Call { nnn: u16 },
    /// `3XNN`: skip the next instruction if register `x` equals `nn`.
    SkipEqImm { x: u8, nn: u8 },
    /// `4XNN`: skip the next instruction if register `x` differs from `nn`.
    SkipNeImm { x: u8, nn: u8 },
    /// `5XY0`: skip the next instruction if registers `x` and `y` are equal.
    SkipEqReg { x: u8, y: u8 },
    /// `6XNN`: set register `x` to `nn`.
    LoadImm { x: u8, nn: u8 },
    /// `7XNN`: add `nn` to register `x`, wrapping, flag untouched.
    AddImm { x: u8, nn: u8 },
    /// `8XY0`: copy register `y` into register `x`.
    Move { x: u8, y: u8 },
    /// `8XY1`: bitwise or of registers `x` and `y` into `x`.
    Or { x: u8, y: u8 },
    /// `8XY2`: bitwise and of registers `x` and `y` into `x`.
    And { x: u8, y: u8 },
    /// `8XY3`: bitwise exclusive or of registers `x` and `y` into `x`.
    Xor { x: u8, y: u8 },
    /// `8XY4`: add register `y` to register `x`, flag set on carry.
    AddReg { x: u8, y: u8 },
    /// `8XY5`: subtract register `y` from register `x`, flag set unless a borrow occurs.
    SubReg { x: u8, y: u8 },
    /// `8XY6`: flag from the lowest bit of register `y`, register `x` gets `y` shifted.
    ShiftLow { x: u8, y: u8 },
    /// `8XY7`: register `x` becomes `y` minus `x`, flag set unless a borrow occurs.
    SubFrom { x: u8, y: u8 },
    /// `8XYE`: flag from the highest bit of register `y`, register `x` gets `y` shifted.
    ShiftHigh { x: u8, y: u8 },
    /// `9XY0`: skip the next instruction if registers `x` and `y` differ.
    SkipNeReg { x: u8, y: u8 },
    /// `ANNN`: set the address register to `nnn`.
    LoadAddr { nnn: u16 },
    /// `BNNN`: jump to `nnn` plus register 0.
    JumpOffset { nnn: u16 },
    /// `CXNN`: set register `x` to a random byte masked by `nn`.
    Random { x: u8, nn: u8 },
    /// `DXYN`: draw a sprite of `n` rows at the position held in registers `x` and `y`.
    Draw { x: u8, y: u8, n: u8 },
    /// `EX9E`: skip the next instruction if the key named by register `x` is pressed.
    SkipKey { x: u8 },
    /// `EXA1`: skip the next instruction if the key named by register `x` is not pressed.
    SkipNoKey { x: u8 },
    /// `FX07`: copy the delay timer into register `x`.
    ReadDelay { x: u8 },
    /// `FX0A`: wait for a key press and store the key in register `x`.
    WaitKey { x: u8 },
    /// `FX15`: set the delay timer from register `x`.
    SetDelay { x: u8 },
    /// `FX18`: set the sound timer from register `x`.
    SetSound { x: u8 },
    /// `FX1E`: add register `x` to the address register.
    AddAddr { x: u8 },
    /// `FX29`: point the address register at the glyph for the digit in register `x`.
    Glyph { x: u8 },
    /// `FX33`: store the three decimal digits of register `x` in memory.
    Bcd { x: u8 },
    /// `FX55`: store registers 0 to `x` in memory.
    Store { x: u8 },
    /// `FX65`: load registers 0 to `x` from memory.
    Load { x: u8 },
}

/// The instruction of the arithmetic family `8XY_` with low nibble `n`.
pub open spec fn decode_arithmetic(n: int, x: u8, y: u8) -> Result<Instruction, CpuError> {
    if n == 0x0 {
        Ok(Instruction::Move { x, y })
    } else if n == 0x1 {
        Ok(Instruction::Or { x, y })
    } else if n == 0x2 {
        Ok(Instruction::And { x, y })
    } else if n == 0x3 {
        Ok(Instruction::Xor { x, y })
    } else if n == 0x4 {
        Ok(Instruction::AddReg { x, y })
    } else if n == 0x5 {
        Ok(Instruction::SubReg { x, y })
    } else if n == 0x6 {
        Ok(Instruction::ShiftLow { x, y })
    } else if n == 0x7 {
        Ok(Instruction::SubFrom { x, y })
    } else if n == 0xE {
        Ok(Instruction::ShiftHigh { x, y })
    } else {
        Err(CpuError::InvalidOpcode)
    }
}

/// The instruction of the family `FX__` with low byte `nn`.
pub open spec fn decode_misc(nn: u8, x: u8) -> Result<Instruction, CpuError> {
    if nn == 0x07 {
        Ok(Instruction::ReadDelay { x })
    } else if nn == 0x0A {
        Ok(Instruction::WaitKey { x })
    } else if nn == 0x15 {
        Ok(Instruction::SetDelay { x })
    } else if nn == 0x18 {
        Ok(Instruction::SetSound { x })
    } else if nn == 0x1E {
        Ok(Instruction::AddAddr { x })
    } else if nn == 0x29 {
        Ok(Instruction::Glyph { x })
    } else if nn == 0x33 {
        Ok(Instruction::Bcd { x })
    } else if nn == 0x55 {
        Ok(Instruction::Store { x })
    } else if nn == 0x65 {
        Ok(Instruction::Load { x })
    } else {
        Err(CpuError::InvalidOpcode)
    }
}

/// The instruction that a word encodes, or `InvalidOpcode` where it encodes
/// none.
///
/// The families `1` to `7` and `9` to `D` are decided by the top nibble
/// alone (`5` and `9` only with a zero low nibble); the others by the low
/// nibble or byte as well.
pub open spec fn decode(opcode: u16) -> Result<Instruction, CpuError> {
    let family = family_of(opcode);
    let x = x_of(opcode) as u8;
    let y = y_of(opcode) as u8;
    let n = n_of(opcode);
    let nn = nn_of(opcode);
    let nnn = nnn_of(opcode);
    if family == 0x0 {
        if opcode == 0x00E0 {
            Ok(Instruction::ClearScreen)
        } else if opcode == 0x00EE {
            Ok(Instruction::Return)
        } else {
            Err(CpuError::InvalidOpcode)
        }
    } else if family == 0x1 {
        Ok(Instruction::Jump { nnn })
    } else if family == 0x2 {
        Ok(Instruction::Call { nnn })
    } else if family == 0x3 {
        Ok(Instruction::SkipEqImm { x, nn })
    } else if family == 0x4 {
        Ok(Instruction::SkipNeImm { x, nn })
    } else if family == 0x5 {
        if n == 0 {
            Ok(Instruction::SkipEqReg { x, y })
        } else {
            Err(CpuError::InvalidOpcode)
        }
    } else if family == 0x6 {
        Ok(Instruction::LoadImm { x, nn })
    } else if family == 0x7 {
        Ok(Instruction::AddImm { x, nn })
    } else if family == 0x8 {
        decode_arithmetic(n, x, y)
    } else if family == 0x9 {
        if n == 0 {
            Ok(Instruction::SkipNeReg { x, y })
        } else {
            Err(CpuError::InvalidOpcode)
        }
    } else if family == 0xA {
        Ok(Instruction::LoadAddr { nnn })
    } else if family == 0xB {
        Ok(Instruction::JumpOffset { nnn })
    } else if family == 0xC {
        Ok(Instruction::Random { x, nn })
    } else if family == 0xD {
        Ok(Instruction::Draw { x, y, n: n as u8 })
    } else if family == 0xE {
        if nn == 0x9E {
            Ok(Instruction::SkipKey { x })
        } else if nn == 0xA1 {
            Ok(Instruction::SkipNoKey { x })
        } else {
            Err(CpuError::InvalidOpcode)
        }
    } else {
        decode_misc(nn, x)
    }
}

/// Shifting and masking an instruction word yields its fields.
pub proof fn lemma_fields_by_bits(opcode: u16)
    ensures
        (opcode >> 12) as int == family_of(opcode),
        ((opcode >> 8) & 0x0F) as int == x_of(opcode),
        ((opcode >> 4) & 0x0F) as int == y_of(opcode),
        (opcode & 0x000F) as int == n_of(opcode),
        (opcode & 0x00FF) as int == nn_of(opcode),
        opcode & 0x0FFF == nnn_of(opcode),
        0 <= family_of(opcode) < 16,
        0 <= x_of(opcode) < 16,
        0 <= y_of(opcode) < 16,
        0 <= n_of(opcode) < 16,
        nnn_of(opcode) <= 0xFFF,
{
    assert(opcode >> 12 == opcode / 0x1000) by (bit_vector);
    assert((opcode >> 8) & 0x0F == (opcode / 0x100) % 0x10) by (bit_vector);
    assert((opcode >> 4) & 0x0F == (opcode / 0x10) % 0x10) by (bit_vector);
    assert(opcode & 0x000F == opcode % 0x10) by (bit_vector);
    assert(opcode & 0x00FF == opcode % 0x100) by (bit_vector);
    assert(opcode & 0x0FFF == opcode % 0x1000) by (bit_vector);
}

/// The `X` field of an instruction word, as an index into the register file.
pub fn field_x(opcode: u16) -> (x: usize)
    ensures
        x == x_of(opcode),
        x < 16,
{
    proof {
        lemma_fields_by_bits(opcode);
    }
    ((opcode >> 8) & 0x0F) as usize
}

/// The `Y` field of an instruction word, as an index into the register file.
pub fn field_y(opcode: u16) -> (y: usize)
    ensures
        y == y_of(opcode),
        y < 16,
{
    proof {
        lemma_fields_by_bits(opcode);
    }
    ((opcode >> 4) & 0x0F) as usize
}

/// The `N` field of an instruction word.
pub fn field_n(opcode: u16) -> (n: u8)
    ensures
        n == n_of(opcode),
        n < 16,
{
    proof {
        lemma_fields_by_bits(opcode);
    }
    (opcode & 0x000F) as u8
}

/// The `NN` field of an instruction word.
pub fn field_nn(opcode: u16) -> (nn: u8)
    ensures
        nn == nn_of(opcode),
{
    proof {
        lemma_fields_by_bits(opcode);
    }
    (opcode & 0x00FF) as u8
}

/// The `NNN` field of an instruction word.
pub fn field_nnn(opcode: u16) -> (nnn: u16)
    ensures
        nnn == nnn_of(opcode),
        nnn <= 0xFFF,
{
    proof {
        lemma_fields_by_bits(opcode);
    }
    opcode & 0x0FFF
}

} // verus!
