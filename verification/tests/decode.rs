use rust_chip8::instruction::{field_n, field_nn, field_nnn, field_x, field_y};
use rust_chip8::{Cpu, CpuError, Instruction};

#[test]
fn fields_of_a_word() {
    assert_eq!(field_x(0xD123), 1);
    assert_eq!(field_y(0xD123), 2);
    assert_eq!(field_n(0xD123), 3);
    assert_eq!(field_nn(0xD123), 0x23);
    assert_eq!(field_nnn(0xD123), 0x123);
    assert_eq!(field_x(0xFFFF), 15);
    assert_eq!(field_nnn(0xFFFF), 0xFFF);
}

#[test]
fn decode_families_decided_by_top_nibble() {
    assert_eq!(Cpu::decode_opcode(0x1ABC), Ok(Instruction::Jump { nnn: 0xABC }));
    assert_eq!(Cpu::decode_opcode(0x2ABC), Ok(Instruction::Call { nnn: 0xABC }));
    assert_eq!(Cpu::decode_opcode(0x3A42), Ok(Instruction::SkipEqImm { x: 0xA, nn: 0x42 }));
    assert_eq!(Cpu::decode_opcode(0x4A42), Ok(Instruction::SkipNeImm { x: 0xA, nn: 0x42 }));
    assert_eq!(Cpu::decode_opcode(0x5AB0), Ok(Instruction::SkipEqReg { x: 0xA, y: 0xB }));
    assert_eq!(Cpu::decode_opcode(0x6A42), Ok(Instruction::LoadImm { x: 0xA, nn: 0x42 }));
    assert_eq!(Cpu::decode_opcode(0x7A42), Ok(Instruction::AddImm { x: 0xA, nn: 0x42 }));
    assert_eq!(Cpu::decode_opcode(0x9AB0), Ok(Instruction::SkipNeReg { x: 0xA, y: 0xB }));
    assert_eq!(Cpu::decode_opcode(0xAABC), Ok(Instruction::LoadAddr { nnn: 0xABC }));
    assert_eq!(Cpu::decode_opcode(0xBABC), Ok(Instruction::JumpOffset { nnn: 0xABC }));
    assert_eq!(Cpu::decode_opcode(0xCA42), Ok(Instruction::Random { x: 0xA, nn: 0x42 }));
    assert_eq!(Cpu::decode_opcode(0xD123), Ok(Instruction::Draw { x: 1, y: 2, n: 3 }));
}

#[test]
fn decode_family_zero() {
    assert_eq!(Cpu::decode_opcode(0x00E0), Ok(Instruction::ClearScreen));
    assert_eq!(Cpu::decode_opcode(0x00EE), Ok(Instruction::Return));
    assert_eq!(Cpu::decode_opcode(0x0000), Err(CpuError::InvalidOpcode));
    assert_eq!(Cpu::decode_opcode(0x0123), Err(CpuError::InvalidOpcode));
    assert_eq!(Cpu::decode_opcode(0x00EF), Err(CpuError::InvalidOpcode));
    assert_eq!(Cpu::decode_opcode(0x01E0), Err(CpuError::InvalidOpcode));
}

#[test]
fn decode_arithmetic_family() {
    assert_eq!(Cpu::decode_opcode(0x8120), Ok(Instruction::Move { x: 1, y: 2 }));
    assert_eq!(Cpu::decode_opcode(0x8121), Ok(Instruction::Or { x: 1, y: 2 }));
    assert_eq!(Cpu::decode_opcode(0x8122), Ok(Instruction::And { x: 1, y: 2 }));
    assert_eq!(Cpu::decode_opcode(0x8123), Ok(Instruction::Xor { x: 1, y: 2 }));
    assert_eq!(Cpu::decode_opcode(0x8124), Ok(Instruction::AddReg { x: 1, y: 2 }));
    assert_eq!(Cpu::decode_opcode(0x8125), Ok(Instruction::SubReg { x: 1, y: 2 }));
    assert_eq!(Cpu::decode_opcode(0x8126), Ok(Instruction::ShiftLow { x: 1, y: 2 }));
    assert_eq!(Cpu::decode_opcode(0x8127), Ok(Instruction::SubFrom { x: 1, y: 2 }));
    assert_eq!(Cpu::decode_opcode(0x812E), Ok(Instruction::ShiftHigh { x: 1, y: 2 }));
    for n in [0x8u16, 0x9, 0xA, 0xB, 0xC, 0xD, 0xF] {
        assert_eq!(Cpu::decode_opcode(0x8120 | n), Err(CpuError::InvalidOpcode));
    }
}

#[test]
fn decode_key_family() {
    assert_eq!(Cpu::decode_opcode(0xE59E), Ok(Instruction::SkipKey { x: 5 }));
    assert_eq!(Cpu::decode_opcode(0xE5A1), Ok(Instruction::SkipNoKey { x: 5 }));
    assert_eq!(Cpu::decode_opcode(0xE59F), Err(CpuError::InvalidOpcode));
    assert_eq!(Cpu::decode_opcode(0xE500), Err(CpuError::InvalidOpcode));
}

#[test]
fn decode_misc_family() {
    assert_eq!(Cpu::decode_opcode(0xF507), Ok(Instruction::ReadDelay { x: 5 }));
    assert_eq!(Cpu::decode_opcode(0xF50A), Ok(Instruction::WaitKey { x: 5 }));
    assert_eq!(Cpu::decode_opcode(0xF515), Ok(Instruction::SetDelay { x: 5 }));
    assert_eq!(Cpu::decode_opcode(0xF518), Ok(Instruction::SetSound { x: 5 }));
    assert_eq!(Cpu::decode_opcode(0xF51E), Ok(Instruction::AddAddr { x: 5 }));
    assert_eq!(Cpu::decode_opcode(0xF529), Ok(Instruction::Glyph { x: 5 }));
    assert_eq!(Cpu::decode_opcode(0xF533), Ok(Instruction::Bcd { x: 5 }));
    assert_eq!(Cpu::decode_opcode(0xF555), Ok(Instruction::Store { x: 5 }));
    assert_eq!(Cpu::decode_opcode(0xF565), Ok(Instruction::Load { x: 5 }));
    assert_eq!(Cpu::decode_opcode(0xF500), Err(CpuError::InvalidOpcode));
    assert_eq!(Cpu::decode_opcode(0xF5FF), Err(CpuError::InvalidOpcode));
}

#[test]
fn decode_skip_of_registers_needs_zero_low_nibble() {
    assert_eq!(Cpu::decode_opcode(0x5AB1), Err(CpuError::InvalidOpcode));
    assert_eq!(Cpu::decode_opcode(0x9ABF), Err(CpuError::InvalidOpcode));
}

#[test]
fn decode_counts_of_valid_words() {
    let mut valid: u32 = 0;
    for word in 0..=0xFFFFu16 {
        if Cpu::decode_opcode(word).is_ok() {
            valid += 1;
        }
    }
    // 2 in family 0; 4096 in each of 1,2,3,4,6,7,A,B,C,D; 256 each in 5 and 9;
    // 9 * 256 in 8; 2 * 16 in E; 9 * 16 in F.
    assert_eq!(valid, 2 + 10 * 4096 + 2 * 256 + 9 * 256 + 2 * 16 + 9 * 16);
}
