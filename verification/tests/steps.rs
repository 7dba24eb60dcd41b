//! Instruction-level scenarios: each test loads a tiny program, pokes the
//! registers it needs, executes steps, and checks the exact outcome.

use schip8::SChip8;

/// A machine freshly loaded with `prog` at address 0x200.
fn machine(prog: &[u8]) -> SChip8 {
    SChip8::new(prog.to_vec()).unwrap()
}

const FONT: [u8; 80] = [
    0xF0, 0x90, 0x90, 0x90, 0xF0, 0x20, 0x60, 0x20, 0x20, 0x70, 0xF0, 0x10, 0xF0, 0x80, 0xF0,
    0xF0, 0x10, 0xF0, 0x10, 0xF0, 0x90, 0x90, 0xF0, 0x10, 0x10, 0xF0, 0x80, 0xF0, 0x10, 0xF0,
    0xF0, 0x80, 0xF0, 0x90, 0xF0, 0xF0, 0x10, 0x20, 0x40, 0x40, 0xF0, 0x90, 0xF0, 0x90, 0xF0,
    0xF0, 0x90, 0xF0, 0x10, 0xF0, 0xF0, 0x90, 0xF0, 0x90, 0x90, 0xE0, 0x90, 0xE0, 0x90, 0xE0,
    0xF0, 0x80, 0x80, 0x80, 0xF0, 0xE0, 0x90, 0x90, 0x90, 0xE0, 0xF0, 0x80, 0xF0, 0x80, 0xF0,
    0xF0, 0x80, 0xF0, 0x80, 0x80,
];

#[test]
fn font_char_points_at_glyph() {
    for d in 0..16u16 {
        let mut m = machine(&[0xF0, 0x29]);
        m.v[0] = d;
        let mut redraw = false;
        assert_eq!(m.run(16, &mut redraw), Ok(true));
        assert_eq!(m.ar, 5 * d);
        for r in 0..5 {
            assert_eq!(m.ram[(5 * d as usize) + r], FONT[(5 * d as usize) + r]);
        }
        assert_eq!(m.pc, 0x202);
    }
}

#[test]
fn clear_then_draw_never_collides() {
    let mut m = machine(&[0x00, 0xE0, 0xD0, 0x11]);
    for p in m.screen.iter_mut() {
        *p = 1;
    }
    m.ram[0x700] = 0xFF;
    m.ar = 0x700;
    m.v[0] = 5;
    m.v[1] = 3;
    let mut redraw = false;
    assert_eq!(m.run(16, &mut redraw), Ok(true));
    assert!(redraw);
    assert!(m.screen.iter().all(|&p| p == 0));
    assert_eq!(m.run(16, &mut redraw), Ok(true));
    assert_eq!(m.v[15], 0, "no collision against a cleared screen");
    for c in 0..8 {
        assert_eq!(m.screen[3 * 64 + 5 + c], 1);
    }
}

#[test]
fn store_then_load_round_trips() {
    let mut m = machine(&[0xFF, 0x55, 0xFF, 0x65]);
    for i in 0..16 {
        m.v[i] = ((i * 7 + 3) % 256) as u16;
    }
    let before = m.v;
    m.ar = 0x400;
    let mut redraw = false;
    assert_eq!(m.run(16, &mut redraw), Ok(true));
    for i in 0..16 {
        assert_eq!(m.ram[0x400 + i], before[i] as u8);
    }
    assert_eq!(m.run(16, &mut redraw), Ok(true));
    assert_eq!(m.v, before);
    assert_eq!(m.ar, 0x400, "the address register is left unmodified");
    assert_eq!(m.pc, 0x204);
}

#[test]
fn add_reg_carry_set() {
    let mut m = machine(&[0x80, 0x14]);
    m.v[0] = 250;
    m.v[1] = 10;
    let mut redraw = false;
    assert_eq!(m.run(16, &mut redraw), Ok(true));
    assert_eq!(m.v[0], 4, "260 mod 256");
    assert_eq!(m.v[15], 1);
}

#[test]
fn add_reg_carry_clear() {
    let mut m = machine(&[0x80, 0x14]);
    m.v[0] = 10;
    m.v[1] = 5;
    let mut redraw = false;
    assert_eq!(m.run(16, &mut redraw), Ok(true));
    assert_eq!(m.v[0], 15);
    assert_eq!(m.v[15], 0);
}

#[test]
fn bcd_of_255() {
    let mut m = machine(&[0xF0, 0x33]);
    m.v[0] = 255;
    m.ar = 0x300;
    let mut redraw = false;
    assert_eq!(m.run(16, &mut redraw), Ok(true));
    assert_eq!(m.ram[0x300], 2);
    assert_eq!(m.ram[0x301], 5);
    assert_eq!(m.ram[0x302], 5);
}

#[test]
fn draw_clips_at_right_edge() {
    let mut m = machine(&[0xD0, 0x11]);
    m.ram[0x700] = 0xFF;
    m.ar = 0x700;
    m.v[0] = 60;
    m.v[1] = 0;
    let mut redraw = false;
    assert_eq!(m.run(16, &mut redraw), Ok(true));
    assert!(redraw);
    for c in 60..64 {
        assert_eq!(m.screen[c], 1, "columns 60..=63 take the sprite");
    }
    for c in 0..8 {
        assert_eq!(m.screen[c], 0, "clipped bits do not wrap to column 0");
    }
    assert_eq!(m.screen[59], 0);
    assert_eq!(m.screen[64], 0, "nothing bleeds into the next row");
    assert_eq!(m.v[15], 0);
}

#[test]
fn draw_clips_at_bottom_edge() {
    let mut m = machine(&[0xD0, 0x14]);
    m.ram[0x700] = 0xFF;
    m.ram[0x701] = 0xFF;
    m.ram[0x702] = 0xFF;
    m.ram[0x703] = 0xFF;
    m.ar = 0x700;
    m.v[0] = 0;
    m.v[1] = 30;
    let mut redraw = false;
    assert_eq!(m.run(16, &mut redraw), Ok(true));
    for c in 0..8 {
        assert_eq!(m.screen[30 * 64 + c], 1);
        assert_eq!(m.screen[31 * 64 + c], 1);
        assert_eq!(m.screen[c], 0, "dropped rows do not wrap to the top");
        assert_eq!(m.screen[64 + c], 0);
    }
}

#[test]
fn draw_xor_reports_collision() {
    let mut m = machine(&[0xD0, 0x11, 0xD0, 0x11]);
    m.ram[0x700] = 0b1010_0000;
    m.ar = 0x700;
    let mut redraw = false;
    assert_eq!(m.run(16, &mut redraw), Ok(true));
    assert_eq!(m.v[15], 0);
    assert_eq!(m.screen[0], 1);
    assert_eq!(m.screen[1], 0);
    assert_eq!(m.screen[2], 1);
    assert_eq!(m.run(16, &mut redraw), Ok(true));
    assert_eq!(m.v[15], 1, "re-drawing the same sprite collides");
    assert!(m.screen.iter().all(|&p| p == 0), "XOR erases the sprite");
}

#[test]
fn call_then_return_resumes_after_call() {
    let mut m = machine(&[0x22, 0x06, 0x00, 0x00, 0x00, 0x00, 0x00, 0xEE]);
    let mut redraw = false;
    assert_eq!(m.run(16, &mut redraw), Ok(true));
    assert_eq!(m.pc, 0x206);
    assert_eq!(m.sp, 1);
    assert_eq!(m.stack[0], 0x200);
    assert_eq!(m.run(16, &mut redraw), Ok(true));
    assert_eq!(m.pc, 0x202, "execution resumes right after the call");
    assert_eq!(m.sp, 0);
}

#[test]
fn wait_key_blocks_until_key() {
    let mut m = machine(&[0xF0, 0x0A]);
    let mut redraw = false;
    for _ in 0..3 {
        assert_eq!(m.run(16, &mut redraw), Ok(true));
        assert_eq!(m.pc, 0x200, "no key: the same wait runs again");
        assert_eq!(m.v[0], 0);
    }
    assert_eq!(m.run(7, &mut redraw), Ok(true));
    assert_eq!(m.pc, 0x202);
    assert_eq!(m.v[0], 7, "the supplied key is stored exactly once");
}

#[test]
fn jumps_and_skips() {
    let mut redraw = false;

    let mut m = machine(&[0x12, 0x08]);
    assert_eq!(m.run(16, &mut redraw), Ok(true));
    assert_eq!(m.pc, 0x208);

    let mut m = machine(&[0xB2, 0x06]);
    m.v[0] = 4;
    assert_eq!(m.run(16, &mut redraw), Ok(true));
    assert_eq!(m.pc, 0x20A);

    let mut m = machine(&[0x30, 0x11]);
    m.v[0] = 0x11;
    assert_eq!(m.run(16, &mut redraw), Ok(true));
    assert_eq!(m.pc, 0x204, "3XNN skips when VX == NN");

    let mut m = machine(&[0x30, 0x11]);
    m.v[0] = 0x12;
    assert_eq!(m.run(16, &mut redraw), Ok(true));
    assert_eq!(m.pc, 0x202);

    let mut m = machine(&[0x40, 0x11]);
    m.v[0] = 0x12;
    assert_eq!(m.run(16, &mut redraw), Ok(true));
    assert_eq!(m.pc, 0x204, "4XNN skips when VX != NN");

    let mut m = machine(&[0x50, 0x10]);
    m.v[0] = 3;
    m.v[1] = 3;
    assert_eq!(m.run(16, &mut redraw), Ok(true));
    assert_eq!(m.pc, 0x204);

    let mut m = machine(&[0x90, 0x10]);
    m.v[0] = 3;
    m.v[1] = 4;
    assert_eq!(m.run(16, &mut redraw), Ok(true));
    assert_eq!(m.pc, 0x204);
}

#[test]
fn immediate_and_copy_ops() {
    let mut redraw = false;

    let mut m = machine(&[0x60, 0xAB]);
    assert_eq!(m.run(16, &mut redraw), Ok(true));
    assert_eq!(m.v[0], 0xAB);

    let mut m = machine(&[0x70, 0x10]);
    m.v[0] = 0xF8;
    assert_eq!(m.run(16, &mut redraw), Ok(true));
    assert_eq!(m.v[0], 0x08, "7XNN wraps modulo 256");
    assert_eq!(m.v[15], 0, "7XNN does not touch the carry flag");

    let mut m = machine(&[0x80, 0x10]);
    m.v[1] = 42;
    assert_eq!(m.run(16, &mut redraw), Ok(true));
    assert_eq!(m.v[0], 42);
}

#[test]
fn bitwise_ops() {
    let mut redraw = false;

    let mut m = machine(&[0x80, 0x11]);
    m.v[0] = 0b1100;
    m.v[1] = 0b1010;
    assert_eq!(m.run(16, &mut redraw), Ok(true));
    assert_eq!(m.v[0], 0b1110);

    let mut m = machine(&[0x80, 0x12]);
    m.v[0] = 0b1100;
    m.v[1] = 0b1010;
    assert_eq!(m.run(16, &mut redraw), Ok(true));
    assert_eq!(m.v[0], 0b1000);

    let mut m = machine(&[0x80, 0x13]);
    m.v[0] = 0b1100;
    m.v[1] = 0b1010;
    assert_eq!(m.run(16, &mut redraw), Ok(true));
    assert_eq!(m.v[0], 0b0110);
}

#[test]
fn subtraction_stores_absolute_difference() {
    let mut redraw = false;

    let mut m = machine(&[0x80, 0x15]);
    m.v[0] = 10;
    m.v[1] = 5;
    assert_eq!(m.run(16, &mut redraw), Ok(true));
    assert_eq!(m.v[0], 5);
    assert_eq!(m.v[15], 1, "no borrow");

    let mut m = machine(&[0x80, 0x15]);
    m.v[0] = 5;
    m.v[1] = 10;
    assert_eq!(m.run(16, &mut redraw), Ok(true));
    assert_eq!(m.v[0], 5, "the absolute value is stored, not a wraparound");
    assert_eq!(m.v[15], 0, "borrow");

    let mut m = machine(&[0x80, 0x17]);
    m.v[0] = 7;
    m.v[1] = 10;
    assert_eq!(m.run(16, &mut redraw), Ok(true));
    assert_eq!(m.v[0], 3);
    assert_eq!(m.v[15], 1);

    let mut m = machine(&[0x80, 0x17]);
    m.v[0] = 10;
    m.v[1] = 7;
    assert_eq!(m.run(16, &mut redraw), Ok(true));
    assert_eq!(m.v[0], 3);
    assert_eq!(m.v[15], 0);
}

#[test]
fn shifts_use_sixteen_bit_width() {
    let mut redraw = false;

    let mut m = machine(&[0x80, 0x06]);
    m.v[0] = 5;
    assert_eq!(m.run(16, &mut redraw), Ok(true));
    assert_eq!(m.v[0], 2);
    assert_eq!(m.v[15], 1);

    let mut m = machine(&[0x80, 0x0E]);
    m.v[0] = 0x8001;
    assert_eq!(m.run(16, &mut redraw), Ok(true));
    assert_eq!(m.v[0], 0x0002);
    assert_eq!(m.v[15], 1, "the shifted-out bit is bit 15, not bit 7");

    let mut m = machine(&[0x80, 0x0E]);
    m.v[0] = 0x0080;
    assert_eq!(m.run(16, &mut redraw), Ok(true));
    assert_eq!(m.v[0], 0x0100);
    assert_eq!(m.v[15], 0);
}

#[test]
fn index_register_ops() {
    let mut redraw = false;

    let mut m = machine(&[0xA7, 0x89]);
    assert_eq!(m.run(16, &mut redraw), Ok(true));
    assert_eq!(m.ar, 0x789);

    let mut m = machine(&[0xF0, 0x1E]);
    m.ar = 0x100;
    m.v[0] = 0x20;
    assert_eq!(m.run(16, &mut redraw), Ok(true));
    assert_eq!(m.ar, 0x120);
    assert_eq!(m.v[15], 0);

    let mut m = machine(&[0xF0, 0x1E]);
    m.ar = 0xFFF;
    m.v[0] = 2;
    assert_eq!(m.run(16, &mut redraw), Ok(true));
    assert_eq!(m.ar, 1, "masked to 12 bits on overflow");
    assert_eq!(m.v[15], 1);
}

#[test]
fn timer_transfer_ops() {
    let mut redraw = false;

    let mut m = machine(&[0xF0, 0x07]);
    m.dt = 42;
    assert_eq!(m.run(16, &mut redraw), Ok(true));
    assert_eq!(m.v[0], 42);

    let mut m = machine(&[0xF0, 0x15]);
    m.v[0] = 9;
    assert_eq!(m.run(16, &mut redraw), Ok(true));
    assert_eq!(m.dt, 9);

    let mut m = machine(&[0xF0, 0x18]);
    m.v[0] = 30;
    assert_eq!(m.run(16, &mut redraw), Ok(true));
    assert_eq!(m.st, 30);
}

#[test]
fn key_skips() {
    let mut redraw = false;

    let mut m = machine(&[0xE0, 0x9E]);
    m.v[0] = 4;
    m.set_key(4, true);
    assert_eq!(m.run(16, &mut redraw), Ok(true));
    assert_eq!(m.pc, 0x204, "EX9E skips when the key is pressed");

    let mut m = machine(&[0xE0, 0x9E]);
    m.v[0] = 4;
    assert_eq!(m.run(16, &mut redraw), Ok(true));
    assert_eq!(m.pc, 0x202);

    let mut m = machine(&[0xE0, 0xA1]);
    m.v[0] = 4;
    assert_eq!(m.run(16, &mut redraw), Ok(true));
    assert_eq!(m.pc, 0x204, "EXA1 skips when the key is not pressed");
}

#[test]
fn exit_halts_cleanly() {
    let mut m = machine(&[0x00, 0xFD]);
    let mut redraw = false;
    assert_eq!(m.run(16, &mut redraw), Ok(false));
    assert_eq!(m.pc, 0x200);
    assert!(!redraw);
}
