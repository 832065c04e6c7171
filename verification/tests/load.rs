use rust_chip8::font::{FONT, FONT_BASE};
use rust_chip8::machine::{MAX_IMAGE_LEN, MEMORY_SIZE, PROGRAM_START};
use rust_chip8::{Cpu, CpuError, CpuState, GraphicsConfig};

#[test]
fn image_of_3584_bytes_loads() {
    let image = vec![0xABu8; 3584];
    let cpu = Cpu::new(&image).unwrap();
    assert_eq!(cpu.memory()[0x200], 0xAB);
    assert_eq!(cpu.memory()[0xFFF], 0xAB);
}

#[test]
fn image_of_3585_bytes_is_too_large() {
    let image = vec![0u8; 3585];
    assert_eq!(Cpu::new(&image).unwrap_err(), CpuError::ImageTooLarge);
}

#[test]
fn image_limit_is_memory_after_program_start() {
    assert_eq!(MAX_IMAGE_LEN, MEMORY_SIZE - PROGRAM_START as usize);
}

#[test]
fn empty_image_loads() {
    let cpu = Cpu::new(&[]).unwrap();
    assert_eq!(cpu.pc(), 0x200);
    assert!(cpu.memory()[0x200..].iter().all(|b| *b == 0));
}

#[test]
fn new_machine_is_zeroed() {
    let cpu = Cpu::new(&[0x12, 0x34, 0x56]).unwrap();
    assert_eq!(cpu.pc(), 0x200);
    assert_eq!(cpu.addr_reg(), 0);
    assert_eq!(cpu.delay_timer(), 0);
    assert_eq!(cpu.sound_timer(), 0);
    assert_eq!(cpu.registers(), &[0u8; 16]);
    assert_eq!(cpu.keys(), &[false; 16]);
    assert!(cpu.stack().is_empty());
    assert_eq!(cpu.state(), CpuState::Running);
    assert!(cpu.framebuffer().iter().all(|p| !*p));
}

#[test]
fn image_is_copied_to_program_start() {
    let cpu = Cpu::new(&[0x12, 0x34, 0x56]).unwrap();
    assert_eq!(cpu.memory()[0x1FF], 0);
    assert_eq!(cpu.memory()[0x200], 0x12);
    assert_eq!(cpu.memory()[0x201], 0x34);
    assert_eq!(cpu.memory()[0x202], 0x56);
    assert_eq!(cpu.memory()[0x203], 0);
}

#[test]
fn font_is_in_reserved_memory() {
    let cpu = Cpu::new(&[0xFF; 16]).unwrap();
    let base = FONT_BASE as usize;
    assert_eq!(base, 0x50);
    assert_eq!(&cpu.memory()[base..base + 80], &FONT[..]);
    assert_eq!(cpu.memory()[base - 1], 0);
    assert_eq!(cpu.memory()[base + 80], 0);
    assert_eq!(&cpu.memory()[base..base + 5], &[0xF0, 0x90, 0x90, 0x90, 0xF0]);
    assert_eq!(&cpu.memory()[base + 75..base + 80], &[0xF0, 0x80, 0xF0, 0x80, 0x80]);
}

#[test]
fn default_is_the_empty_program() {
    let cpu = Cpu::default();
    let loaded = Cpu::new(&[]).unwrap();
    assert_eq!(cpu.memory(), loaded.memory());
    assert_eq!(cpu.pc(), 0x200);
    assert_eq!(cpu.registers(), loaded.registers());
}

#[test]
fn clone_is_independent() {
    let mut cpu = Cpu::new(&[0x60, 0x2A]).unwrap();
    let before = cpu.clone();
    cpu.step().unwrap();
    assert_eq!(cpu.registers()[0], 0x2A);
    assert_eq!(before.registers()[0], 0);
    assert_eq!(before.pc(), 0x200);
    assert_eq!(cpu.pc(), 0x202);
}

#[test]
fn two_interpreters_do_not_interfere() {
    let mut a = Cpu::new(&[0x60, 0x01]).unwrap();
    let mut b = Cpu::new(&[0x60, 0x02]).unwrap();
    a.step().unwrap();
    b.step().unwrap();
    a.set_key(3, true);
    assert_eq!(a.registers()[0], 1);
    assert_eq!(b.registers()[0], 2);
    assert!(!b.keys()[3]);
}

#[test]
fn graphics_config_keeps_name_and_size() {
    let conf = GraphicsConfig::new("rust-chip8", (640, 320));
    assert_eq!(conf.name, "rust-chip8");
    assert_eq!(conf.dim, (640, 320));
}
