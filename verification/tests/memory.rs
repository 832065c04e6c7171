use rust_chip8::{Cpu, CpuError};

fn with_regs(values: &[(u16, u8)]) -> Cpu {
    let mut cpu = Cpu::new(&[]).unwrap();
    for (x, v) in values {
        cpu.opcode_6xnn(0x6000 | (*x << 8) | *v as u16);
    }
    cpu
}

#[test]
fn load_address_register() {
    let mut cpu = Cpu::new(&[]).unwrap();
    cpu.opcode_annn(0xAABC);
    assert_eq!(cpu.addr_reg(), 0xABC);
    assert_eq!(cpu.pc(), 0x200);
}

#[test]
fn add_to_address_register() {
    let mut cpu = with_regs(&[(4, 0x20)]);
    cpu.opcode_annn(0xA100);
    cpu.opcode_fx1e(0xF41E);
    assert_eq!(cpu.addr_reg(), 0x120);
}

#[test]
fn add_to_address_register_wraps_at_twelve_bits() {
    let mut cpu = with_regs(&[(4, 0x02)]);
    cpu.opcode_annn(0xAFFF);
    cpu.opcode_fx1e(0xF41E);
    assert_eq!(cpu.addr_reg(), 0x001);
    let mut cpu = with_regs(&[(4, 0xFF)]);
    cpu.opcode_annn(0xAFFF);
    cpu.opcode_fx1e(0xF41E);
    assert_eq!(cpu.addr_reg(), 0x0FE);
}

#[test]
fn glyph_address_is_five_bytes_per_digit() {
    for digit in 0..16u16 {
        let mut cpu = with_regs(&[(2, digit as u8)]);
        cpu.opcode_fx29(0xF229);
        assert_eq!(cpu.addr_reg(), 0x50 + 5 * digit);
    }
}

#[test]
fn glyph_address_uses_the_low_nibble() {
    let mut cpu = with_regs(&[(2, 0x3A)]);
    cpu.opcode_fx29(0xF229);
    assert_eq!(cpu.addr_reg(), 0x50 + 5 * 0xA);
}

#[test]
fn decimal_digits_are_stored() {
    let mut cpu = with_regs(&[(7, 254)]);
    cpu.opcode_annn(0xA400);
    assert_eq!(cpu.opcode_fx33(0xF733), Ok(()));
    assert_eq!(&cpu.memory()[0x400..0x403], &[2, 5, 4]);
    assert_eq!(cpu.addr_reg(), 0x400);
    let mut cpu = with_regs(&[(7, 7)]);
    cpu.opcode_annn(0xA400);
    cpu.opcode_fx33(0xF733).unwrap();
    assert_eq!(&cpu.memory()[0x400..0x403], &[0, 0, 7]);
    let mut cpu = with_regs(&[(7, 100)]);
    cpu.opcode_annn(0xA400);
    cpu.opcode_fx33(0xF733).unwrap();
    assert_eq!(&cpu.memory()[0x400..0x403], &[1, 0, 0]);
}

#[test]
fn decimal_digits_at_the_end_of_memory() {
    let mut cpu = with_regs(&[(7, 123)]);
    cpu.opcode_annn(0xAFFD);
    assert_eq!(cpu.opcode_fx33(0xF733), Ok(()));
    assert_eq!(&cpu.memory()[0xFFD..], &[1, 2, 3]);
    cpu.opcode_annn(0xAFFE);
    let before = cpu.clone();
    assert_eq!(cpu.opcode_fx33(0xF733), Err(CpuError::AddressOutOfRange));
    assert_eq!(cpu.memory(), before.memory());
}

#[test]
fn store_registers() {
    let mut cpu = with_regs(&[(0, 10), (1, 11), (2, 12), (3, 13)]);
    cpu.opcode_annn(0xA400);
    assert_eq!(cpu.opcode_fx55(0xF255), Ok(()));
    assert_eq!(&cpu.memory()[0x400..0x404], &[10, 11, 12, 0]);
    assert_eq!(cpu.addr_reg(), 0x400);
}

#[test]
fn store_register_zero_alone() {
    let mut cpu = with_regs(&[(0, 10), (1, 11)]);
    cpu.opcode_annn(0xA400);
    cpu.opcode_fx55(0xF055).unwrap();
    assert_eq!(&cpu.memory()[0x400..0x402], &[10, 0]);
}

#[test]
fn load_registers() {
    let mut cpu = Cpu::new(&[1, 2, 3, 4]).unwrap();
    cpu.opcode_6xnn(0x6309);
    cpu.opcode_annn(0xA200);
    assert_eq!(cpu.opcode_fx65(0xF265), Ok(()));
    assert_eq!(&cpu.registers()[..4], &[1, 2, 3, 9]);
    assert_eq!(cpu.addr_reg(), 0x200);
}

#[test]
fn store_then_load_brings_the_registers_back() {
    let values: Vec<(u16, u8)> = (0..16u16).map(|x| (x, 0xA0 + x as u8)).collect();
    let mut cpu = with_regs(&values);
    let saved = *cpu.registers();
    cpu.opcode_annn(0xA500);
    cpu.opcode_fx55(0xFF55).unwrap();
    for x in 0..16u16 {
        cpu.opcode_6xnn(0x6000 | (x << 8));
    }
    assert_eq!(cpu.registers(), &[0u8; 16]);
    cpu.opcode_fx65(0xFF65).unwrap();
    assert_eq!(cpu.registers(), &saved);
    assert_eq!(cpu.addr_reg(), 0x500);
}

#[test]
fn store_then_load_of_a_prefix() {
    let mut cpu = with_regs(&[(0, 1), (1, 2), (2, 3), (3, 4)]);
    cpu.opcode_annn(0xA500);
    cpu.opcode_fx55(0xF155).unwrap();
    cpu.opcode_6xnn(0x6000);
    cpu.opcode_6xnn(0x6100);
    cpu.opcode_6xnn(0x6200);
    cpu.opcode_fx65(0xF165).unwrap();
    assert_eq!(&cpu.registers()[..4], &[1, 2, 0, 4]);
}

#[test]
fn store_and_load_at_the_end_of_memory() {
    let mut cpu = with_regs(&[(0, 1), (1, 2)]);
    cpu.opcode_annn(0xAFFE);
    assert_eq!(cpu.opcode_fx55(0xF155), Ok(()));
    assert_eq!(&cpu.memory()[0xFFE..], &[1, 2]);
    assert_eq!(cpu.opcode_fx65(0xF165), Ok(()));
    let before = cpu.clone();
    assert_eq!(cpu.opcode_fx55(0xF255), Err(CpuError::AddressOutOfRange));
    assert_eq!(cpu.opcode_fx65(0xF265), Err(CpuError::AddressOutOfRange));
    assert_eq!(cpu.memory(), before.memory());
    assert_eq!(cpu.registers(), before.registers());
}

#[test]
fn store_can_overwrite_the_program() {
    let mut cpu = Cpu::new(&[0x60, 0x12, 0xA2, 0x04, 0xF0, 0x55]).unwrap();
    cpu.run(3).unwrap();
    assert_eq!(cpu.memory()[0x204], 0x12);
}
