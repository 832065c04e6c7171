use rust_chip8::display::{SCREEN_CELLS, SCREEN_HEIGHT, SCREEN_WIDTH};
use rust_chip8::{Cpu, CpuError};

/// An interpreter whose memory holds `sprite` at 0x300, with the address
/// register pointing at it and registers 1 and 2 holding `x` and `y`.
fn with_sprite(sprite: &[u8], x: u8, y: u8) -> Cpu {
    let mut image = vec![0u8; 0x100];
    image.extend_from_slice(sprite);
    let mut cpu = Cpu::new(&image).unwrap();
    cpu.opcode_annn(0xA300);
    cpu.opcode_6xnn(0x6100 | x as u16);
    cpu.opcode_6xnn(0x6200 | y as u16);
    cpu
}

fn lit(cpu: &Cpu) -> Vec<(usize, usize)> {
    let mut on = Vec::new();
    for y in 0..SCREEN_HEIGHT {
        for x in 0..SCREEN_WIDTH {
            if cpu.pixel(x, y) == Some(true) {
                on.push((x, y));
            }
        }
    }
    on
}

#[test]
fn screen_is_64_by_32() {
    assert_eq!(SCREEN_WIDTH, 64);
    assert_eq!(SCREEN_HEIGHT, 32);
    assert_eq!(SCREEN_CELLS, 2048);
}

#[test]
fn pixel_outside_the_frame_is_none() {
    let cpu = Cpu::new(&[]).unwrap();
    assert_eq!(cpu.pixel(0, 0), Some(false));
    assert_eq!(cpu.pixel(63, 31), Some(false));
    assert_eq!(cpu.pixel(64, 0), None);
    assert_eq!(cpu.pixel(0, 32), None);
}

#[test]
fn draw_one_row() {
    let mut cpu = with_sprite(&[0b1010_0001], 3, 5);
    assert_eq!(cpu.opcode_dxyn(0xD121), Ok(()));
    assert_eq!(lit(&cpu), vec![(3, 5), (5, 5), (10, 5)]);
    assert_eq!(cpu.registers()[0xF], 0);
}

#[test]
fn draw_several_rows() {
    let mut cpu = with_sprite(&[0x80, 0x40, 0x20], 0, 0);
    cpu.opcode_dxyn(0xD123).unwrap();
    assert_eq!(lit(&cpu), vec![(0, 0), (1, 1), (2, 2)]);
}

#[test]
fn draw_uses_only_n_rows() {
    let mut cpu = with_sprite(&[0x80, 0x80, 0x80], 0, 0);
    cpu.opcode_dxyn(0xD122).unwrap();
    assert_eq!(lit(&cpu), vec![(0, 0), (0, 1)]);
}

#[test]
fn draw_of_no_rows_clears_the_flag() {
    let mut cpu = with_sprite(&[0xFF], 0, 0);
    cpu.opcode_6xnn(0x6F09);
    cpu.opcode_dxyn(0xD120).unwrap();
    assert!(lit(&cpu).is_empty());
    assert_eq!(cpu.registers()[0xF], 0);
}

#[test]
fn framebuffer_is_row_major() {
    let mut cpu = with_sprite(&[0x80], 7, 2);
    cpu.opcode_dxyn(0xD121).unwrap();
    let frame = cpu.framebuffer();
    assert!(frame[2 * 64 + 7]);
    assert_eq!(frame.iter().filter(|p| **p).count(), 1);
}

#[test]
fn draw_wraps_around_the_right_edge() {
    let mut cpu = with_sprite(&[0xFF], 60, 0);
    cpu.opcode_dxyn(0xD121).unwrap();
    assert_eq!(
        lit(&cpu),
        vec![(0, 0), (1, 0), (2, 0), (3, 0), (60, 0), (61, 0), (62, 0), (63, 0)]
    );
}

#[test]
fn draw_wraps_around_the_bottom_edge() {
    let mut cpu = with_sprite(&[0x80, 0x80, 0x80], 0, 30);
    cpu.opcode_dxyn(0xD123).unwrap();
    assert_eq!(lit(&cpu), vec![(0, 0), (0, 30), (0, 31)]);
}

#[test]
fn draw_position_is_taken_modulo_the_frame() {
    let mut cpu = with_sprite(&[0x80], 64 + 3, 32 * 7 + 1);
    cpu.opcode_dxyn(0xD121).unwrap();
    assert_eq!(lit(&cpu), vec![(3, 1)]);
}

#[test]
fn drawing_twice_restores_the_frame_and_reports_collision() {
    let mut cpu = with_sprite(&[0xF0, 0x90, 0x90, 0x90, 0xF0], 10, 10);
    let before = *cpu.framebuffer();
    cpu.opcode_dxyn(0xD125).unwrap();
    assert_eq!(cpu.registers()[0xF], 0);
    assert_ne!(cpu.framebuffer(), &before);
    cpu.opcode_dxyn(0xD125).unwrap();
    assert_eq!(cpu.registers()[0xF], 1);
    assert_eq!(cpu.framebuffer(), &before);
}

#[test]
fn drawing_twice_over_a_picture_restores_it() {
    let mut cpu = with_sprite(&[0xFF, 0x0F], 0, 0);
    cpu.opcode_dxyn(0xD122).unwrap();
    let picture = *cpu.framebuffer();
    // A second sprite that partly overlaps the first one.
    cpu.opcode_6xnn(0x6104);
    cpu.opcode_dxyn(0xD122).unwrap();
    assert_eq!(cpu.registers()[0xF], 1);
    cpu.opcode_dxyn(0xD122).unwrap();
    assert_eq!(cpu.framebuffer(), &picture);
    assert_eq!(cpu.registers()[0xF], 1);
}

#[test]
fn drawing_empty_sprite_twice_never_collides() {
    let mut cpu = with_sprite(&[0x00, 0x00], 0, 0);
    cpu.opcode_dxyn(0xD122).unwrap();
    assert_eq!(cpu.registers()[0xF], 0);
    cpu.opcode_dxyn(0xD122).unwrap();
    assert_eq!(cpu.registers()[0xF], 0);
    assert!(lit(&cpu).is_empty());
}

#[test]
fn collision_is_for_the_whole_sprite() {
    // Only the first row collides; the flag must survive the later rows.
    let mut cpu = with_sprite(&[0x80, 0x00, 0x00], 0, 0);
    cpu.opcode_dxyn(0xD121).unwrap();
    cpu.opcode_dxyn(0xD123).unwrap();
    assert_eq!(cpu.registers()[0xF], 1);
    assert!(lit(&cpu).is_empty());
}

#[test]
fn collision_flag_is_reset_by_a_clean_draw() {
    let mut cpu = with_sprite(&[0x80], 0, 0);
    cpu.opcode_dxyn(0xD121).unwrap();
    cpu.opcode_dxyn(0xD121).unwrap();
    assert_eq!(cpu.registers()[0xF], 1);
    cpu.opcode_dxyn(0xD121).unwrap();
    assert_eq!(cpu.registers()[0xF], 0);
}

#[test]
fn draw_reads_position_before_writing_the_flag() {
    let mut cpu = with_sprite(&[0x80], 0, 0);
    cpu.opcode_6xnn(0x6F05);
    cpu.opcode_dxyn(0xDF21).unwrap();
    assert_eq!(lit(&cpu), vec![(5, 0)]);
    assert_eq!(cpu.registers()[0xF], 0);
}

#[test]
fn draw_past_the_end_of_memory_fails() {
    let mut cpu = with_sprite(&[0xFF], 0, 0);
    cpu.opcode_annn(0xAFFE);
    cpu.opcode_6xnn(0x6F07);
    let before = cpu.clone();
    assert_eq!(cpu.opcode_dxyn(0xD123), Err(CpuError::AddressOutOfRange));
    assert_eq!(cpu.framebuffer(), before.framebuffer());
    assert_eq!(cpu.registers(), before.registers());
    assert_eq!(cpu.opcode_dxyn(0xD122), Ok(()));
}

#[test]
fn clear_screen_switches_every_pixel_off() {
    let mut cpu = with_sprite(&[0xFF, 0xFF], 20, 20);
    cpu.opcode_dxyn(0xD122).unwrap();
    assert_eq!(lit(&cpu).len(), 16);
    cpu.opcode_00e0(0x00E0);
    assert!(lit(&cpu).is_empty());
    assert_eq!(cpu.registers()[1], 20);
}

#[test]
fn glyph_zero_is_drawn_from_the_font() {
    let mut cpu = Cpu::new(&[0x6000, 0xF029, 0xD005].iter().flat_map(|w: &u16| w.to_be_bytes()).collect::<Vec<u8>>()).unwrap();
    cpu.run(3).unwrap();
    assert_eq!(cpu.addr_reg(), 0x50);
    assert_eq!(
        lit(&cpu),
        vec![
            (0, 0), (1, 0), (2, 0), (3, 0),
            (0, 1), (3, 1),
            (0, 2), (3, 2),
            (0, 3), (3, 3),
            (0, 4), (1, 4), (2, 4), (3, 4),
        ]
    );
}
