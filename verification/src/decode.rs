//! Instruction decoding: a fetched two-byte opcode is classified into a
//! tagged variant, so that execution is an exhaustive match and every
//! unmatched bit pattern is reported instead of ignored.

use vstd::prelude::*;

verus! {

/// One decoded instruction. Operand naming follows the opcode convention:
/// `x` and `y` are register indices (one nibble each), `nn` an immediate
/// byte, `nnn` a 12-bit address, `n` a sprite height in rows.
#[derive(Clone, Copy, Debug, PartialEq, Eq, Structural)]
pub enum Instr {
    /// 00E0: clear the framebuffer.
    Cls,
    /// 00EE: pop the call stack into the program counter.
    Ret,
    /// 00FD: stop the interpreter.
    Exit,
    /// A recognized but unsupported opcode (00CN, 00FB, 00FC, 00FE, 00FF,
    /// 0NNN, FX75, FX85).
    Unimplemented,
    /// 1NNN: jump.
    Jump { nnn: u16 },
    /// 2NNN: call a subroutine.
    Call { nnn: u16 },
    /// 3XNN: skip the next instruction if VX == NN.
    SkipEqImm { x: u8, nn: u8 },
    /// 4XNN: skip the next instruction if VX != NN.
    SkipNeImm { x: u8, nn: u8 },
    /// 5XY0: skip the next instruction if VX == VY.
    SkipEqReg { x: u8, y: u8 },
    /// 6XNN: VX := NN.
    SetImm { x: u8, nn: u8 },
    /// 7XNN: VX := (VX + NN) mod 256, carry untouched.
    AddImm { x: u8, nn: u8 },
    /// 8XY0: VX := VY.
    CopyReg { x: u8, y: u8 },
    /// 8XY1: VX := VX | VY.
    OrReg { x: u8, y: u8 },
    /// 8XY2: VX := VX & VY.
    AndReg { x: u8, y: u8 },
    /// 8XY3: VX := VX ^ VY.
    XorReg { x: u8, y: u8 },
    /// 8XY4: VX := (VX + VY) mod 256, VF := carry.
    AddReg { x: u8, y: u8 },
    /// 8XY5: VX := |VX - VY|, VF := 1 if no borrow.
    SubReg { x: u8, y: u8 },
    /// 8XY6: VF := VX & 1, then VX := VX >> 1.
    ShrReg { x: u8 },
    /// 8XY7: VX := |VY - VX|, VF := 1 if no borrow.
    SubFrom { x: u8, y: u8 },
    /// 8XYE: VF := bit 15 of VX, then VX := VX << 1.
    ShlReg { x: u8 },
    /// 9XY0: skip the next instruction if VX != VY.
    SkipNeReg { x: u8, y: u8 },
    /// ANNN: I := NNN.
    SetIndex { nnn: u16 },
    /// BNNN: jump to NNN + V0.
    JumpV0 { nnn: u16 },
    /// CXNN: VX := random byte & NN.
    Random { x: u8, nn: u8 },
    /// DXYN: draw an 8-wide, N-high sprite at (VX, VY), VF := collision.
    Draw { x: u8, y: u8, n: u8 },
    /// EX9E: skip the next instruction if key VX is pressed.
    SkipKey { x: u8 },
    /// EXA1: skip the next instruction if key VX is not pressed.
    SkipNoKey { x: u8 },
    /// FX07: VX := delay timer.
    ReadDelay { x: u8 },
    /// FX0A: wait for a key press, then VX := key.
    WaitKey { x: u8 },
    /// FX15: delay timer := VX.
    SetDelay { x: u8 },
    /// FX18: sound timer := VX.
    SetSound { x: u8 },
    /// FX1E: I := I + VX, masked to 12 bits, VF := overflow.
    AddIndex { x: u8 },
    /// FX29: I := address of the font glyph for hex digit VX.
    FontChar { x: u8 },
    /// FX33: store the decimal digits of VX at I, I+1, I+2.
    StoreBcd { x: u8 },
    /// FX55: store V0..VX at I onward; I unchanged.
    StoreRegs { x: u8 },
    /// FX65: load V0..VX from I onward; I unchanged.
    LoadRegs { x: u8 },
    /// No instruction family matches.
    Unknown,
}

/// The decoding function: how the four nibbles of the two fetched bytes
/// select an instruction and its operands.
pub open spec fn spec_decode(hi: u8, lo: u8) -> Instr {
    let family = hi / 16;
    let x = hi % 16;
    let y = lo / 16;
    let n = lo % 16;
    let nnn = ((x as int) * 256 + (lo as int)) as u16;
    if family == 0 {
        if hi == 0x00 && lo == 0xE0 {
            Instr::Cls
        } else if hi == 0x00 && lo == 0xEE {
            Instr::Ret
        } else if hi == 0x00 && lo == 0xFD {
            Instr::Exit
        } else {
            Instr::Unimplemented
        }
    } else if family == 0x1 {
        Instr::Jump { nnn }
    } else if family == 0x2 {
        Instr::Call { nnn }
    } else if family == 0x3 {
        Instr::SkipEqImm { x, nn: lo }
    } else if family == 0x4 {
        Instr::SkipNeImm { x, nn: lo }
    } else if family == 0x5 {
        if n == 0 {
            Instr::SkipEqReg { x, y }
        } else {
            Instr::Unknown
        }
    } else if family == 0x6 {
        Instr::SetImm { x, nn: lo }
    } else if family == 0x7 {
        Instr::AddImm { x, nn: lo }
    } else if family == 0x8 {
        if n == 0x0 {
            Instr::CopyReg { x, y }
        } else if n == 0x1 {
            Instr::OrReg { x, y }
        } else if n == 0x2 {
            Instr::AndReg { x, y }
        } else if n == 0x3 {
            Instr::XorReg { x, y }
        } else if n == 0x4 {
            Instr::AddReg { x, y }
        } else if n == 0x5 {
            Instr::SubReg { x, y }
        } else if n == 0x6 {
            Instr::ShrReg { x }
        } else if n == 0x7 {
            Instr::SubFrom { x, y }
        } else if n == 0xE {
            Instr::ShlReg { x }
        } else {
            Instr::Unknown
        }
    } else if family == 0x9 {
        if n == 0 {
            Instr::SkipNeReg { x, y }
        } else {
            Instr::Unknown
        }
    } else if family == 0xA {
        Instr::SetIndex { nnn }
    } else if family == 0xB {
        Instr::JumpV0 { nnn }
    } else if family == 0xC {
        Instr::Random { x, nn: lo }
    } else if family == 0xD {
        Instr::Draw { x, y, n }
    } else if family == 0xE {
        if lo == 0x9E {
            Instr::SkipKey { x }
        } else if lo == 0xA1 {
            Instr::SkipNoKey { x }
        } else {
            Instr::Unknown
        }
    } else {
        // family == 0xF
        if lo == 0x07 {
            Instr::ReadDelay { x }
        } else if lo == 0x0A {
            Instr::WaitKey { x }
        } else if lo == 0x15 {
            Instr::SetDelay { x }
        } else if lo == 0x18 {
            Instr::SetSound { x }
        } else if lo == 0x1E {
            Instr::AddIndex { x }
        } else if lo == 0x29 {
            Instr::FontChar { x }
        } else if lo == 0x33 {
            Instr::StoreBcd { x }
        } else if lo == 0x55 {
            Instr::StoreRegs { x }
        } else if lo == 0x65 {
            Instr::LoadRegs { x }
        } else if lo == 0x75 || lo == 0x85 {
            Instr::Unimplemented
        } else {
            Instr::Unknown
        }
    }
}

/// Bounds that decoding guarantees for every operand: register indices and
/// sprite heights are one nibble, addresses are three.
pub open spec fn instr_wf(instr: Instr) -> bool {
    match instr {
        Instr::Jump { nnn } => nnn < 0x1000,
        Instr::Call { nnn } => nnn < 0x1000,
        Instr::SetIndex { nnn } => nnn < 0x1000,
        Instr::JumpV0 { nnn } => nnn < 0x1000,
        Instr::SkipEqImm { x, .. } => x < 16,
        Instr::SkipNeImm { x, .. } => x < 16,
        Instr::SkipEqReg { x, y } => x < 16 && y < 16,
        Instr::SetImm { x, .. } => x < 16,
        Instr::AddImm { x, .. } => x < 16,
        Instr::CopyReg { x, y } => x < 16 && y < 16,
        Instr::OrReg { x, y } => x < 16 && y < 16,
        Instr::AndReg { x, y } => x < 16 && y < 16,
        Instr::XorReg { x, y } => x < 16 && y < 16,
        Instr::AddReg { x, y } => x < 16 && y < 16,
        Instr::SubReg { x, y } => x < 16 && y < 16,
        Instr::ShrReg { x } => x < 16,
        Instr::SubFrom { x, y } => x < 16 && y < 16,
        Instr::ShlReg { x } => x < 16,
        Instr::SkipNeReg { x, y } => x < 16 && y < 16,
        Instr::Random { x, .. } => x < 16,
        Instr::Draw { x, y, n } => x < 16 && y < 16 && n < 16,
        Instr::SkipKey { x } => x < 16,
        Instr::SkipNoKey { x } => x < 16,
        Instr::ReadDelay { x } => x < 16,
        Instr::WaitKey { x } => x < 16,
        Instr::SetDelay { x } => x < 16,
        Instr::SetSound { x } => x < 16,
        Instr::AddIndex { x } => x < 16,
        Instr::FontChar { x } => x < 16,
        Instr::StoreBcd { x } => x < 16,
        Instr::StoreRegs { x } => x < 16,
        Instr::LoadRegs { x } => x < 16,
        _ => true,
    }
}

/// Every decoded instruction satisfies the operand bounds.
pub proof fn lemma_decode_wf(hi: u8, lo: u8)
    ensures
        instr_wf(spec_decode(hi, lo)),
{
}

/// Decode two fetched bytes into an instruction.
pub fn decode(hi: u8, lo: u8) -> (r: Instr)
    ensures
        r == spec_decode(hi, lo),
        instr_wf(r),
{
    let family = hi / 16;
    let x = hi % 16;
    let y = lo / 16;
    let n = lo % 16;
    let nnn = (x as u16) * 256 + (lo as u16);
    if family == 0 {
        if hi == 0x00 && lo == 0xE0 {
            Instr::Cls
        } else if hi == 0x00 && lo == 0xEE {
            Instr::Ret
        } else if hi == 0x00 && lo == 0xFD {
            Instr::Exit
        } else {
            Instr::Unimplemented
        }
    } else if family == 0x1 {
        Instr::Jump { nnn }
    } else if family == 0x2 {
        Instr::Call { nnn }
    } else if family == 0x3 {
        Instr::SkipEqImm { x, nn: lo }
    } else if family == 0x4 {
        Instr::SkipNeImm { x, nn: lo }
    } else if family == 0x5 {
        if n == 0 {
            Instr::SkipEqReg { x, y }
        } else {
            Instr::Unknown
        }
    } else if family == 0x6 {
        Instr::SetImm { x, nn: lo }
    } else if family == 0x7 {
        Instr::AddImm { x, nn: lo }
    } else if family == 0x8 {
        if n == 0x0 {
            Instr::CopyReg { x, y }
        } else if n == 0x1 {
            Instr::OrReg { x, y }
        } else if n == 0x2 {
            Instr::AndReg { x, y }
        } else if n == 0x3 {
            Instr::XorReg { x, y }
        } else if n == 0x4 {
            Instr::AddReg { x, y }
        } else if n == 0x5 {
            Instr::SubReg { x, y }
        } else if n == 0x6 {
            Instr::ShrReg { x }
        } else if n == 0x7 {
            Instr::SubFrom { x, y }
        } else if n == 0xE {
            Instr::ShlReg { x }
        } else {
            Instr::Unknown
        }
    } else if family == 0x9 {
        if n == 0 {
            Instr::SkipNeReg { x, y }
        } else {
            Instr::Unknown
        }
    } else if family == 0xA {
        Instr::SetIndex { nnn }
    } else if family == 0xB {
        Instr::JumpV0 { nnn }
    } else if family == 0xC {
        Instr::Random { x, nn: lo }
    } else if family == 0xD {
        Instr::Draw { x, y, n }
    } else if family == 0xE {
        if lo == 0x9E {
            Instr::SkipKey { x }
        } else if lo == 0xA1 {
            Instr::SkipNoKey { x }
        } else {
            Instr::Unknown
        }
    } else {
        if lo == 0x07 {
            Instr::ReadDelay { x }
        } else if lo == 0x0A {
            Instr::WaitKey { x }
        } else if lo == 0x15 {
            Instr::SetDelay { x }
        } else if lo == 0x18 {
            Instr::SetSound { x }
        } else if lo == 0x1E {
            Instr::AddIndex { x }
        } else if lo == 0x29 {
            Instr::FontChar { x }
        } else if lo == 0x33 {
            Instr::StoreBcd { x }
        } else if lo == 0x55 {
            Instr::StoreRegs { x }
        } else if lo == 0x65 {
            Instr::LoadRegs { x }
        } else if lo == 0x75 || lo == 0x85 {
            Instr::Unimplemented
        } else {
            Instr::Unknown
        }
    }
}

} // verus!
