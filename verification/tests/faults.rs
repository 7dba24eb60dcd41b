//! Construction and error reporting: every fault variant has an input that
//! produces it, and a failing step leaves the machine untouched.

use schip8::Fault;
use schip8::SChip8;

fn machine(prog: &[u8]) -> SChip8 {
    SChip8::new(prog.to_vec()).unwrap()
}

#[test]
fn oversized_program_is_rejected() {
    let r = SChip8::new(vec![0u8; 3585]);
    assert_eq!(r.err(), Some(Fault::ProgramTooLarge { len: 3585 }));
    assert!(SChip8::new(vec![0u8; 3584]).is_ok());
}

#[test]
fn fresh_machine_state() {
    let m = machine(&[0x12, 0x34, 0x56]);
    assert_eq!(m.pc, 512);
    assert_eq!(m.ar, 0);
    assert_eq!(m.sp, 0);
    assert_eq!(m.dt, 0);
    assert_eq!(m.st, 0);
    assert!(m.v.iter().all(|&r| r == 0));
    assert!(m.screen.iter().all(|&p| p == 0));
    assert!(m.key_pad.iter().all(|&k| !k));
    assert_eq!(&m.ram[512..515], &[0x12, 0x34, 0x56]);
    assert!(m.ram[515..].iter().all(|&b| b == 0));
    assert_eq!(m.ram[0], 0xF0, "font glyph 0 starts at address 0");
    assert_eq!(m.ram[79], 0x80, "font glyph F ends at address 79");
    assert!(m.ram[80..512].iter().all(|&b| b == 0));
}

#[test]
fn unknown_opcode_is_reported() {
    let mut m = machine(&[0x50, 0x11]);
    let mut redraw = false;
    assert_eq!(
        m.run(16, &mut redraw),
        Err(Fault::UnknownOpcode { pc: 0x200, hi: 0x50, lo: 0x11 })
    );
    assert_eq!(m.pc, 0x200, "a faulting step changes nothing");
}

#[test]
fn unimplemented_opcodes_are_reported() {
    for prog in [
        [0x00u8, 0xC3],
        [0x00, 0xFB],
        [0x00, 0xFC],
        [0x00, 0xFE],
        [0x00, 0xFF],
        [0x02, 0x34],
        [0xF0, 0x75],
        [0xF0, 0x85],
    ] {
        let mut m = machine(&prog);
        let mut redraw = false;
        assert_eq!(
            m.run(16, &mut redraw),
            Err(Fault::UnimplementedOpcode { pc: 0x200, hi: prog[0], lo: prog[1] }),
            "opcode {:02X}{:02X} must be reported, not ignored",
            prog[0],
            prog[1]
        );
    }
}

#[test]
fn return_with_empty_stack_underflows() {
    let mut m = machine(&[0x00, 0xEE]);
    let mut redraw = false;
    assert_eq!(m.run(16, &mut redraw), Err(Fault::StackUnderflow { pc: 0x200 }));
}

#[test]
fn call_beyond_capacity_overflows() {
    let mut m = machine(&[0x22, 0x00]);
    m.sp = 48;
    let mut redraw = false;
    assert_eq!(m.run(16, &mut redraw), Err(Fault::StackOverflow { pc: 0x200 }));
    assert_eq!(m.sp, 48);
}

#[test]
fn deep_recursion_uses_all_48_frames() {
    // The program at 0x200 calls itself: 48 calls fill the stack, the 49th
    // overflows.
    let mut m = machine(&[0x22, 0x00]);
    let mut redraw = false;
    for depth in 1..=48 {
        assert_eq!(m.run(16, &mut redraw), Ok(true));
        assert_eq!(m.sp, depth);
    }
    assert_eq!(m.run(16, &mut redraw), Err(Fault::StackOverflow { pc: 0x200 }));
}

#[test]
fn bcd_past_end_of_memory() {
    let mut m = machine(&[0xF0, 0x33]);
    m.ar = 0xFFE;
    m.v[0] = 7;
    let mut redraw = false;
    assert_eq!(
        m.run(16, &mut redraw),
        Err(Fault::MemoryOutOfRange { pc: 0x200, addr: 0x1000 })
    );
    assert_eq!(m.ram[0xFFE], 0);
}

#[test]
fn register_dump_past_end_of_memory() {
    let mut m = machine(&[0xF5, 0x55]);
    m.ar = 0xFFC;
    let mut redraw = false;
    assert_eq!(
        m.run(16, &mut redraw),
        Err(Fault::MemoryOutOfRange { pc: 0x200, addr: 0x1001 })
    );

    let mut m = machine(&[0xF5, 0x65]);
    m.ar = 0xFFC;
    assert_eq!(
        m.run(16, &mut redraw),
        Err(Fault::MemoryOutOfRange { pc: 0x200, addr: 0x1001 })
    );
}

#[test]
fn sprite_fetch_past_end_of_memory() {
    let mut m = machine(&[0xD0, 0x12]);
    m.ar = 0xFFF;
    let mut redraw = false;
    assert_eq!(
        m.run(16, &mut redraw),
        Err(Fault::MemoryOutOfRange { pc: 0x200, addr: 0x1000 })
    );
    assert!(!redraw, "a failed draw requests no redraw");
}

#[test]
fn key_test_with_bad_register_value() {
    let mut m = machine(&[0xE0, 0x9E]);
    m.v[0] = 16;
    let mut redraw = false;
    assert_eq!(
        m.run(16, &mut redraw),
        Err(Fault::KeyOutOfRange { pc: 0x200, value: 16 })
    );

    let mut m = machine(&[0xE0, 0xA1]);
    m.v[0] = 300;
    assert_eq!(
        m.run(16, &mut redraw),
        Err(Fault::KeyOutOfRange { pc: 0x200, value: 300 })
    );
}
