//! The decode/dispatch engine: one execution step fetches the instruction at
//! the program counter, decodes it, executes it against the machine state,
//! advances control flow, and reports whether execution should continue and
//! whether the framebuffer changed.

use vstd::prelude::*;

use crate::decode::decode;
use crate::decode::spec_decode;
use crate::decode::Instr;
use crate::draw;
use crate::fault::Fault;
use crate::state::SChip8;
use crate::state::NUM_KEYS;
use crate::state::NUM_PIXELS;
use crate::state::RAM_SIZE;
use crate::state::SCHIP8_SCREEN_HEIGHT;
use crate::state::SCHIP8_SCREEN_WIDTH;
use crate::state::STACK_CAPACITY;

verus! {

/// High byte of the instruction at the program counter.
pub open spec fn fetch_hi(m: SChip8) -> u8
    recommends
        m.pc + 1 < RAM_SIZE,
{
    m.ram@[m.pc as int]
}

/// Low byte of the instruction at the program counter.
pub open spec fn fetch_lo(m: SChip8) -> u8
    recommends
        m.pc + 1 < RAM_SIZE,
{
    m.ram@[m.pc as int + 1]
}

/// The instruction a step of `m` will execute.
pub open spec fn cur_instr(m: SChip8) -> Instr
    recommends
        m.pc + 1 < RAM_SIZE,
{
    spec_decode(fetch_hi(m), fetch_lo(m))
}

/// A step that faulted: the given error is reported and nothing at all is
/// changed, so state is never corrupted by a failing instruction.
pub open spec fn faulted(
    pre: SChip8,
    post: SChip8,
    draw0: bool,
    draw1: bool,
    res: Result<bool, Fault>,
    f: Fault,
) -> bool {
    &&& res == Err::<bool, Fault>(f)
    &&& post == pre
    &&& draw1 == draw0
}

/// The exact effect of one execution step. `pre` and `post` are the machine
/// before and after; `key` is the key the host supplies for this step (16 or
/// more meaning "none"), `rnd` the byte consumed if the instruction is the
/// random mask; `draw0` and `draw1` are the redraw flag before and after,
/// and `res` carries "continue" or the fault.
///
/// Control flow: every instruction advances the program counter by 2 (by 4
/// when a skip is taken) except the jumps and calls, which set it to their
/// target; the return, which resumes right after the matching call; the
/// halt and the unsatisfied key wait, which leave it alone so the same
/// instruction is fetched again.
pub open spec fn step_rel(
    pre: SChip8,
    key: usize,
    rnd: u8,
    post: SChip8,
    draw0: bool,
    draw1: bool,
    res: Result<bool, Fault>,
) -> bool
    recommends
        pre.wf(),
        pre.pc + 1 < RAM_SIZE,
{
    let hi = fetch_hi(pre);
    let lo = fetch_lo(pre);
    match cur_instr(pre) {
        Instr::Cls => {
            &&& res == Ok::<bool, Fault>(true)
            &&& draw1 == true
            &&& post == (SChip8 { screen: post.screen, pc: post.pc, ..pre })
            &&& forall|i: int| 0 <= i < NUM_PIXELS ==> #[trigger] post.screen@[i] == 0
            &&& post.pc == pre.pc + 2
        },
        Instr::Ret => {
            if pre.sp == 0 {
                faulted(pre, post, draw0, draw1, res, Fault::StackUnderflow { pc: pre.pc })
            } else {
                &&& res == Ok::<bool, Fault>(true)
                &&& draw1 == draw0
                &&& post == (SChip8 { pc: post.pc, sp: post.sp, ..pre })
                &&& post.sp == pre.sp - 1
                &&& post.pc == pre.stack@[pre.sp - 1] + 2
            }
        },
        Instr::Exit => {
            &&& res == Ok::<bool, Fault>(false)
            &&& draw1 == draw0
            &&& post == pre
        },
        Instr::Unimplemented => faulted(
            pre,
            post,
            draw0,
            draw1,
            res,
            Fault::UnimplementedOpcode { pc: pre.pc, hi, lo },
        ),
        Instr::Unknown => faulted(
            pre,
            post,
            draw0,
            draw1,
            res,
            Fault::UnknownOpcode { pc: pre.pc, hi, lo },
        ),
        Instr::Jump { nnn } => {
            &&& res == Ok::<bool, Fault>(true)
            &&& draw1 == draw0
            &&& post == (SChip8 { pc: post.pc, ..pre })
            &&& post.pc == nnn
        },
        Instr::Call { nnn } => {
            if pre.sp == STACK_CAPACITY {
                faulted(pre, post, draw0, draw1, res, Fault::StackOverflow { pc: pre.pc })
            } else {
                &&& res == Ok::<bool, Fault>(true)
                &&& draw1 == draw0
                &&& post == (SChip8 { pc: post.pc, stack: post.stack, sp: post.sp, ..pre })
                &&& post.stack@ == pre.stack@.update(pre.sp as int, pre.pc)
                &&& post.sp == pre.sp + 1
                &&& post.pc == nnn
            }
        },
        Instr::SkipEqImm { x, nn } => {
            &&& res == Ok::<bool, Fault>(true)
            &&& draw1 == draw0
            &&& post == (SChip8 { pc: post.pc, ..pre })
            &&& post.pc == pre.pc + (if pre.v@[x as int] == nn as u16 {
                4int
            } else {
                2int
            })
        },
        Instr::SkipNeImm { x, nn } => {
            &&& res == Ok::<bool, Fault>(true)
            &&& draw1 == draw0
            &&& post == (SChip8 { pc: post.pc, ..pre })
            &&& post.pc == pre.pc + (if pre.v@[x as int] != nn as u16 {
                4int
            } else {
                2int
            })
        },
        Instr::SkipEqReg { x, y } => {
            &&& res == Ok::<bool, Fault>(true)
            &&& draw1 == draw0
            &&& post == (SChip8 { pc: post.pc, ..pre })
            &&& post.pc == pre.pc + (if pre.v@[x as int] == pre.v@[y as int] {
                4int
            } else {
                2int
            })
        },
        Instr::SkipNeReg { x, y } => {
            &&& res == Ok::<bool, Fault>(true)
            &&& draw1 == draw0
            &&& post == (SChip8 { pc: post.pc, ..pre })
            &&& post.pc == pre.pc + (if pre.v@[x as int] != pre.v@[y as int] {
                4int
            } else {
                2int
            })
        },
        Instr::SetImm { x, nn } => {
            &&& res == Ok::<bool, Fault>(true)
            &&& draw1 == draw0
            &&& post == (SChip8 { v: post.v, pc: post.pc, ..pre })
            &&& post.v@ == pre.v@.update(x as int, nn as u16)
            &&& post.pc == pre.pc + 2
        },
        Instr::AddImm { x, nn } => {
            &&& res == Ok::<bool, Fault>(true)
            &&& draw1 == draw0
            &&& post == (SChip8 { v: post.v, pc: post.pc, ..pre })
            &&& post.v@ == pre.v@.update(
                x as int,
                ((pre.v@[x as int] + nn as u16) % 256) as u16,
            )
            &&& post.pc == pre.pc + 2
        },
        Instr::CopyReg { x, y } => {
            &&& res == Ok::<bool, Fault>(true)
            &&& draw1 == draw0
            &&& post == (SChip8 { v: post.v, pc: post.pc, ..pre })
            &&& post.v@ == pre.v@.update(x as int, pre.v@[y as int])
            &&& post.pc == pre.pc + 2
        },
        Instr::OrReg { x, y } => {
            &&& res == Ok::<bool, Fault>(true)
            &&& draw1 == draw0
            &&& post == (SChip8 { v: post.v, pc: post.pc, ..pre })
            &&& post.v@ == pre.v@.update(x as int, pre.v@[x as int] | pre.v@[y as int])
            &&& post.pc == pre.pc + 2
        },
        Instr::AndReg { x, y } => {
            &&& res == Ok::<bool, Fault>(true)
            &&& draw1 == draw0
            &&& post == (SChip8 { v: post.v, pc: post.pc, ..pre })
            &&& post.v@ == pre.v@.update(x as int, pre.v@[x as int] & pre.v@[y as int])
            &&& post.pc == pre.pc + 2
        },
        Instr::XorReg { x, y } => {
            &&& res == Ok::<bool, Fault>(true)
            &&& draw1 == draw0
            &&& post == (SChip8 { v: post.v, pc: post.pc, ..pre })
            &&& post.v@ == pre.v@.update(x as int, pre.v@[x as int] ^ pre.v@[y as int])
            &&& post.pc == pre.pc + 2
        },
        Instr::AddReg { x, y } => {
            let sum = pre.v@[x as int] + pre.v@[y as int];
            &&& res == Ok::<bool, Fault>(true)
            &&& draw1 == draw0
            &&& post == (SChip8 { v: post.v, pc: post.pc, ..pre })
            &&& post.v@ == pre.v@.update(
                15,
                if sum >= 256 {
                    1u16
                } else {
                    0u16
                },
            ).update(x as int, (sum % 256) as u16)
            &&& post.pc == pre.pc + 2
        },
        Instr::SubReg { x, y } => {
            let a = pre.v@[x as int];
            let b = pre.v@[y as int];
            &&& res == Ok::<bool, Fault>(true)
            &&& draw1 == draw0
            &&& post == (SChip8 { v: post.v, pc: post.pc, ..pre })
            &&& post.v@ == (if a >= b {
                pre.v@.update(15, 1u16).update(x as int, (a - b) as u16)
            } else {
                pre.v@.update(15, 0u16).update(x as int, (b - a) as u16)
            })
            &&& post.pc == pre.pc + 2
        },
        Instr::SubFrom { x, y } => {
            let a = pre.v@[x as int];
            let b = pre.v@[y as int];
            &&& res == Ok::<bool, Fault>(true)
            &&& draw1 == draw0
            &&& post == (SChip8 { v: post.v, pc: post.pc, ..pre })
            &&& post.v@ == (if b >= a {
                pre.v@.update(15, 1u16).update(x as int, (b - a) as u16)
            } else {
                pre.v@.update(15, 0u16).update(x as int, (a - b) as u16)
            })
            &&& post.pc == pre.pc + 2
        },
        Instr::ShrReg { x } => {
            let v1 = pre.v@.update(15, (pre.v@[x as int] % 2) as u16);
            &&& res == Ok::<bool, Fault>(true)
            &&& draw1 == draw0
            &&& post == (SChip8 { v: post.v, pc: post.pc, ..pre })
            &&& post.v@ == v1.update(x as int, (v1[x as int] / 2) as u16)
            &&& post.pc == pre.pc + 2
        },
        Instr::ShlReg { x } => {
            let v1 = pre.v@.update(15, (pre.v@[x as int] / 0x8000) as u16);
            &&& res == Ok::<bool, Fault>(true)
            &&& draw1 == draw0
            &&& post == (SChip8 { v: post.v, pc: post.pc, ..pre })
            &&& post.v@ == v1.update(x as int, ((v1[x as int] * 2) % 0x10000) as u16)
            &&& post.pc == pre.pc + 2
        },
        Instr::SetIndex { nnn } => {
            &&& res == Ok::<bool, Fault>(true)
            &&& draw1 == draw0
            &&& post == (SChip8 { ar: post.ar, pc: post.pc, ..pre })
            &&& post.ar == nnn
            &&& post.pc == pre.pc + 2
        },
        Instr::JumpV0 { nnn } => {
            &&& res == Ok::<bool, Fault>(true)
            &&& draw1 == draw0
            &&& post == (SChip8 { pc: post.pc, ..pre })
            &&& post.pc == nnn + pre.v@[0]
        },
        Instr::Random { x, nn } => {
            &&& res == Ok::<bool, Fault>(true)
            &&& draw1 == draw0
            &&& post == (SChip8 { v: post.v, pc: post.pc, ..pre })
            &&& post.v@ == pre.v@.update(x as int, (rnd as u16) & (nn as u16))
            &&& post.pc == pre.pc + 2
        },
        Instr::Draw { x, y, n } => {
            let v1 = pre.v@.update(15, 0u16);
            let x0 = (v1[x as int] as int) % (SCHIP8_SCREEN_WIDTH as int);
            let y0 = (v1[y as int] as int) % (SCHIP8_SCREEN_HEIGHT as int);
            let rows = if n as int <= SCHIP8_SCREEN_HEIGHT - y0 {
                n as int
            } else {
                SCHIP8_SCREEN_HEIGHT - y0
            };
            if pre.ar + rows > RAM_SIZE {
                faulted(
                    pre,
                    post,
                    draw0,
                    draw1,
                    res,
                    Fault::MemoryOutOfRange { pc: pre.pc, addr: (pre.ar + rows - 1) as usize },
                )
            } else {
                let sprite = pre.ram@.subrange(pre.ar as int, pre.ar + rows);
                &&& res == Ok::<bool, Fault>(true)
                &&& draw1 == true
                &&& post == (SChip8 { v: post.v, screen: post.screen, pc: post.pc, ..pre })
                &&& post.screen@ == draw::draw_screen(pre.screen@, x0, y0, sprite)
                &&& post.v@ == pre.v@.update(
                    15,
                    if draw::draw_collides(pre.screen@, x0, y0, sprite) {
                        1u16
                    } else {
                        0u16
                    },
                )
                &&& post.pc == pre.pc + 2
            }
        },
        Instr::SkipKey { x } => {
            let vx = pre.v@[x as int];
            if vx >= NUM_KEYS as u16 {
                faulted(
                    pre,
                    post,
                    draw0,
                    draw1,
                    res,
                    Fault::KeyOutOfRange { pc: pre.pc, value: vx },
                )
            } else {
                &&& res == Ok::<bool, Fault>(true)
                &&& draw1 == draw0
                &&& post == (SChip8 { pc: post.pc, ..pre })
                &&& post.pc == pre.pc + (if pre.key_pad@[vx as int] {
                    4int
                } else {
                    2int
                })
            }
        },
        Instr::SkipNoKey { x } => {
            let vx = pre.v@[x as int];
            if vx >= NUM_KEYS as u16 {
                faulted(
                    pre,
                    post,
                    draw0,
                    draw1,
                    res,
                    Fault::KeyOutOfRange { pc: pre.pc, value: vx },
                )
            } else {
                &&& res == Ok::<bool, Fault>(true)
                &&& draw1 == draw0
                &&& post == (SChip8 { pc: post.pc, ..pre })
                &&& post.pc == pre.pc + (if !pre.key_pad@[vx as int] {
                    4int
                } else {
                    2int
                })
            }
        },
        Instr::ReadDelay { x } => {
            &&& res == Ok::<bool, Fault>(true)
            &&& draw1 == draw0
            &&& post == (SChip8 { v: post.v, pc: post.pc, ..pre })
            &&& post.v@ == pre.v@.update(x as int, pre.dt as u16)
            &&& post.pc == pre.pc + 2
        },
        Instr::WaitKey { x } => {
            if key < NUM_KEYS {
                &&& res == Ok::<bool, Fault>(true)
                &&& draw1 == draw0
                &&& post == (SChip8 { v: post.v, pc: post.pc, ..pre })
                &&& post.v@ == pre.v@.update(x as int, key as u16)
                &&& post.pc == pre.pc + 2
            } else {
                // No key this step: the program counter stays put, so the
                // same wait executes again next step.
                &&& res == Ok::<bool, Fault>(true)
                &&& draw1 == draw0
                &&& post == pre
            }
        },
        Instr::SetDelay { x } => {
            &&& res == Ok::<bool, Fault>(true)
            &&& draw1 == draw0
            &&& post == (SChip8 { dt: post.dt, pc: post.pc, ..pre })
            &&& post.dt == (pre.v@[x as int] % 256) as u8
            &&& post.pc == pre.pc + 2
        },
        Instr::SetSound { x } => {
            &&& res == Ok::<bool, Fault>(true)
            &&& draw1 == draw0
            &&& post == (SChip8 { st: post.st, pc: post.pc, ..pre })
            &&& post.st == (pre.v@[x as int] % 256) as u8
            &&& post.pc == pre.pc + 2
        },
        Instr::AddIndex { x } => {
            let sum = pre.ar + pre.v@[x as int];
            &&& res == Ok::<bool, Fault>(true)
            &&& draw1 == draw0
            &&& post == (SChip8 { ar: post.ar, v: post.v, pc: post.pc, ..pre })
            &&& post.ar == (sum % 0x1000) as u16
            &&& post.v@ == pre.v@.update(
                15,
                if sum > 0xFFF {
                    1u16
                } else {
                    0u16
                },
            )
            &&& post.pc == pre.pc + 2
        },
        Instr::FontChar { x } => {
            &&& res == Ok::<bool, Fault>(true)
            &&& draw1 == draw0
            &&& post == (SChip8 { ar: post.ar, pc: post.pc, ..pre })
            &&& post.ar == ((pre.v@[x as int] * 5) % 0x1000) as u16
            &&& post.pc == pre.pc + 2
        },
        Instr::StoreBcd { x } => {
            let ar = pre.ar as int;
            let vx = pre.v@[x as int] as int;
            if ar + 2 >= RAM_SIZE {
                faulted(
                    pre,
                    post,
                    draw0,
                    draw1,
                    res,
                    Fault::MemoryOutOfRange { pc: pre.pc, addr: (ar + 2) as usize },
                )
            } else {
                &&& res == Ok::<bool, Fault>(true)
                &&& draw1 == draw0
                &&& post == (SChip8 { ram: post.ram, pc: post.pc, ..pre })
                &&& post.ram@ == pre.ram@.update(ar, ((vx / 100) % 10) as u8).update(
                    ar + 1,
                    ((vx / 10) % 10) as u8,
                ).update(ar + 2, (vx % 10) as u8)
                &&& post.pc == pre.pc + 2
            }
        },
        Instr::StoreRegs { x } => {
            let ar = pre.ar as int;
            if ar + x >= RAM_SIZE {
                faulted(
                    pre,
                    post,
                    draw0,
                    draw1,
                    res,
                    Fault::MemoryOutOfRange { pc: pre.pc, addr: (ar + x) as usize },
                )
            } else {
                &&& res == Ok::<bool, Fault>(true)
                &&& draw1 == draw0
                &&& post == (SChip8 { ram: post.ram, pc: post.pc, ..pre })
                &&& forall|i: int|
                    0 <= i < RAM_SIZE ==> #[trigger] post.ram@[i] == (if ar <= i <= ar + x {
                        (pre.v@[i - ar] % 256) as u8
                    } else {
                        pre.ram@[i]
                    })
                &&& post.pc == pre.pc + 2
            }
        },
        Instr::LoadRegs { x } => {
            let ar = pre.ar as int;
            if ar + x >= RAM_SIZE {
                faulted(
                    pre,
                    post,
                    draw0,
                    draw1,
                    res,
                    Fault::MemoryOutOfRange { pc: pre.pc, addr: (ar + x) as usize },
                )
            } else {
                &&& res == Ok::<bool, Fault>(true)
                &&& draw1 == draw0
                &&& post == (SChip8 { v: post.v, pc: post.pc, ..pre })
                &&& forall|i: int|
                    0 <= i < 16 ==> #[trigger] post.v@[i] == (if i <= x {
                        pre.ram@[ar + i] as u16
                    } else {
                        pre.v@[i]
                    })
                &&& post.pc == pre.pc + 2
            }
        },
    }
}

/// A byte from the host's random source.
///
/// Relies on rand::random: draws one uniformly distributed byte from the
/// thread-local generator. Nothing is promised of the value.
#[verifier::external_body]
fn random_byte() -> u8 {
    rand::random::<u8>()
}

impl SChip8 {
    /// Execute exactly one instruction, with every input made explicit:
    /// `key` is the key the host considers pressed this step (16 or more
    /// meaning "none"), `rnd` the byte used if the instruction is the
    /// random mask. Fully deterministic: the outcome is pinned down by
    /// `step_rel`.
    #[verifier::rlimit(100)]
    pub fn step_with(&mut self, key: usize, rnd: u8, redraw: &mut bool) -> (r: Result<bool, Fault>)
        requires
            old(self).wf(),
            old(self).pc + 1 < RAM_SIZE,
        ensures
            final(self).wf(),
            step_rel(*old(self), key, rnd, *final(self), *old(redraw), *final(redraw), r),
    {
        let hi = self.ram[self.pc];
        let lo = self.ram[self.pc + 1];
        match decode(hi, lo) {
            Instr::Cls => {
                self.screen = [0; NUM_PIXELS];
                self.pc = self.pc + 2;
                *redraw = true;
                Ok(true)
            },
            Instr::Ret => {
                if self.sp == 0 {
                    return Err(Fault::StackUnderflow { pc: self.pc });
                }
                self.sp = self.sp - 1;
                self.pc = self.stack[self.sp] + 2;
                Ok(true)
            },
            Instr::Exit => Ok(false),
            Instr::Unimplemented => Err(Fault::UnimplementedOpcode { pc: self.pc, hi, lo }),
            Instr::Unknown => Err(Fault::UnknownOpcode { pc: self.pc, hi, lo }),
            Instr::Jump { nnn } => {
                self.pc = nnn as usize;
                Ok(true)
            },
            Instr::Call { nnn } => {
                if self.sp == STACK_CAPACITY {
                    return Err(Fault::StackOverflow { pc: self.pc });
                }
                self.stack[self.sp] = self.pc;
                self.sp = self.sp + 1;
                self.pc = nnn as usize;
                Ok(true)
            },
            Instr::SkipEqImm { x, nn } => {
                if self.v[x as usize] == nn as u16 {
                    self.pc = self.pc + 4;
                } else {
                    self.pc = self.pc + 2;
                }
                Ok(true)
            },
            Instr::SkipNeImm { x, nn } => {
                if self.v[x as usize] != nn as u16 {
                    self.pc = self.pc + 4;
                } else {
                    self.pc = self.pc + 2;
                }
                Ok(true)
            },
            Instr::SkipEqReg { x, y } => {
                if self.v[x as usize] == self.v[y as usize] {
                    self.pc = self.pc + 4;
                } else {
                    self.pc = self.pc + 2;
                }
                Ok(true)
            },
            Instr::SkipNeReg { x, y } => {
                if self.v[x as usize] != self.v[y as usize] {
                    self.pc = self.pc + 4;
                } else {
                    self.pc = self.pc + 2;
                }
                Ok(true)
            },
            Instr::SetImm { x, nn } => {
                self.v[x as usize] = nn as u16;
                self.pc = self.pc + 2;
                Ok(true)
            },
            Instr::AddImm { x, nn } => {
                let sum: u32 = self.v[x as usize] as u32 + nn as u32;
                self.v[x as usize] = (sum % 256) as u16;
                self.pc = self.pc + 2;
                Ok(true)
            },
            Instr::CopyReg { x, y } => {
                self.v[x as usize] = self.v[y as usize];
                self.pc = self.pc + 2;
                Ok(true)
            },
            Instr::OrReg { x, y } => {
                self.v[x as usize] = self.v[x as usize] | self.v[y as usize];
                self.pc = self.pc + 2;
                Ok(true)
            },
            Instr::AndReg { x, y } => {
                self.v[x as usize] = self.v[x as usize] & self.v[y as usize];
                self.pc = self.pc + 2;
                Ok(true)
            },
            Instr::XorReg { x, y } => {
                self.v[x as usize] = self.v[x as usize] ^ self.v[y as usize];
                self.pc = self.pc + 2;
                Ok(true)
            },
            Instr::AddReg { x, y } => {
                let sum: u32 = self.v[x as usize] as u32 + self.v[y as usize] as u32;
                if sum >= 256 {
                    self.v[15] = 1;
                } else {
                    self.v[15] = 0;
                }
                self.v[x as usize] = (sum % 256) as u16;
                self.pc = self.pc + 2;
                Ok(true)
            },
            Instr::SubReg { x, y } => {
                let a = self.v[x as usize];
                let b = self.v[y as usize];
                if a >= b {
                    self.v[15] = 1;
                    self.v[x as usize] = a - b;
                } else {
                    self.v[15] = 0;
                    self.v[x as usize] = b - a;
                }
                self.pc = self.pc + 2;
                Ok(true)
            },
            Instr::SubFrom { x, y } => {
                let a = self.v[x as usize];
                let b = self.v[y as usize];
                if b >= a {
                    self.v[15] = 1;
                    self.v[x as usize] = b - a;
                } else {
                    self.v[15] = 0;
                    self.v[x as usize] = a - b;
                }
                self.pc = self.pc + 2;
                Ok(true)
            },
            Instr::ShrReg { x } => {
                self.v[15] = self.v[x as usize] % 2;
                let cur = self.v[x as usize];
                self.v[x as usize] = cur / 2;
                self.pc = self.pc + 2;
                Ok(true)
            },
            Instr::ShlReg { x } => {
                self.v[15] = self.v[x as usize] / 0x8000;
                let cur: u32 = self.v[x as usize] as u32;
                self.v[x as usize] = ((cur * 2) % 0x10000) as u16;
                self.pc = self.pc + 2;
                Ok(true)
            },
            Instr::SetIndex { nnn } => {
                self.ar = nnn;
                self.pc = self.pc + 2;
                Ok(true)
            },
            Instr::JumpV0 { nnn } => {
                self.pc = nnn as usize + self.v[0] as usize;
                Ok(true)
            },
            Instr::Random { x, nn } => {
                self.v[x as usize] = (rnd as u16) & (nn as u16);
                self.pc = self.pc + 2;
                Ok(true)
            },
            Instr::Draw { x, y, n } => {
                // VF is cleared before the coordinate registers are read, so
                // a draw whose X or Y names VF starts from zero; the clear
                // itself is folded into the final flag write below.
                let ex = if x == 15 {
                    0
                } else {
                    self.v[x as usize]
                };
                let ey = if y == 15 {
                    0
                } else {
                    self.v[y as usize]
                };
                let x0 = (ex as usize) % SCHIP8_SCREEN_WIDTH;
                let y0 = (ey as usize) % SCHIP8_SCREEN_HEIGHT;
                let rows = if (n as usize) + y0 <= SCHIP8_SCREEN_HEIGHT {
                    n as usize
                } else {
                    SCHIP8_SCREEN_HEIGHT - y0
                };
                let ar = self.ar as usize;
                if ar + rows > RAM_SIZE {
                    return Err(Fault::MemoryOutOfRange { pc: self.pc, addr: ar + rows - 1 });
                }
                let hit = draw::draw_sprite(&mut self.screen, &self.ram, ar, x0, y0, rows);
                if hit {
                    self.v[15] = 1;
                } else {
                    self.v[15] = 0;
                }
                self.pc = self.pc + 2;
                *redraw = true;
                Ok(true)
            },
            Instr::SkipKey { x } => {
                let vx = self.v[x as usize];
                if vx >= NUM_KEYS as u16 {
                    return Err(Fault::KeyOutOfRange { pc: self.pc, value: vx });
                }
                if self.key_pad[vx as usize] {
                    self.pc = self.pc + 4;
                } else {
                    self.pc = self.pc + 2;
                }
                Ok(true)
            },
            Instr::SkipNoKey { x } => {
                let vx = self.v[x as usize];
                if vx >= NUM_KEYS as u16 {
                    return Err(Fault::KeyOutOfRange { pc: self.pc, value: vx });
                }
                if !self.key_pad[vx as usize] {
                    self.pc = self.pc + 4;
                } else {
                    self.pc = self.pc + 2;
                }
                Ok(true)
            },
            Instr::ReadDelay { x } => {
                self.v[x as usize] = self.dt as u16;
                self.pc = self.pc + 2;
                Ok(true)
            },
            Instr::WaitKey { x } => {
                if key < NUM_KEYS {
                    self.v[x as usize] = key as u16;
                    self.pc = self.pc + 2;
                }
                Ok(true)
            },
            Instr::SetDelay { x } => {
                self.dt = (self.v[x as usize] % 256) as u8;
                self.pc = self.pc + 2;
                Ok(true)
            },
            Instr::SetSound { x } => {
                self.st = (self.v[x as usize] % 256) as u8;
                self.pc = self.pc + 2;
                Ok(true)
            },
            Instr::AddIndex { x } => {
                let sum: u32 = self.ar as u32 + self.v[x as usize] as u32;
                self.ar = (sum % 0x1000) as u16;
                if sum > 0xFFF {
                    self.v[15] = 1;
                } else {
                    self.v[15] = 0;
                }
                self.pc = self.pc + 2;
                Ok(true)
            },
            Instr::FontChar { x } => {
                let prod: u32 = self.v[x as usize] as u32 * 5;
                self.ar = (prod % 0x1000) as u16;
                self.pc = self.pc + 2;
                Ok(true)
            },
            Instr::StoreBcd { x } => {
                let ar = self.ar as usize;
                if ar + 2 >= RAM_SIZE {
                    return Err(Fault::MemoryOutOfRange { pc: self.pc, addr: ar + 2 });
                }
                let vx = self.v[x as usize];
                self.ram[ar] = ((vx / 100) % 10) as u8;
                self.ram[ar + 1] = ((vx / 10) % 10) as u8;
                self.ram[ar + 2] = (vx % 10) as u8;
                self.pc = self.pc + 2;
                Ok(true)
            },
            Instr::StoreRegs { x } => {
                let ar = self.ar as usize;
                if ar + x as usize >= RAM_SIZE {
                    return Err(Fault::MemoryOutOfRange { pc: self.pc, addr: ar + x as usize });
                }
                let mut xi: usize = 0;
                while xi <= x as usize
                    invariant
                        x < 16,
                        xi <= x as usize + 1,
                        ar == old(self).ar as int,
                        ar + x < RAM_SIZE,
                        *self == (SChip8 { ram: self.ram, ..*old(self) }),
                        forall|i: int|
                            0 <= i < RAM_SIZE && !(ar <= i < ar + xi) ==> #[trigger] self.ram@[i]
                                == old(self).ram@[i],
                        forall|i: int|
                            ar <= i < ar + xi ==> #[trigger] self.ram@[i] == (old(self).v@[i
                                - ar] % 256) as u8,
                    decreases x as int + 1 - xi,
                {
                    self.ram[ar + xi] = (self.v[xi] % 256) as u8;
                    xi = xi + 1;
                }
                self.pc = self.pc + 2;
                Ok(true)
            },
            Instr::LoadRegs { x } => {
                let ar = self.ar as usize;
                if ar + x as usize >= RAM_SIZE {
                    return Err(Fault::MemoryOutOfRange { pc: self.pc, addr: ar + x as usize });
                }
                let mut xi: usize = 0;
                while xi <= x as usize
                    invariant
                        x < 16,
                        xi <= x as usize + 1,
                        ar == old(self).ar as int,
                        ar + x < RAM_SIZE,
                        *self == (SChip8 { v: self.v, ..*old(self) }),
                        forall|i: int|
                            xi <= i < 16 ==> #[trigger] self.v@[i] == old(self).v@[i],
                        forall|i: int|
                            0 <= i < xi ==> #[trigger] self.v@[i] == old(self).ram@[ar + i] as u16,
                    decreases x as int + 1 - xi,
                {
                    self.v[xi] = self.ram[ar + xi] as u16;
                    xi = xi + 1;
                }
                self.pc = self.pc + 2;
                Ok(true)
            },
        }
    }

    /// Execute exactly one instruction. The random byte a random-mask
    /// instruction consumes is drawn from the host's random source, so the
    /// outcome is pinned down by `step_rel` for some such byte.
    pub fn run(&mut self, key: usize, redraw: &mut bool) -> (r: Result<bool, Fault>)
        requires
            old(self).wf(),
            old(self).pc + 1 < RAM_SIZE,
        ensures
            final(self).wf(),
            exists|rnd: u8|
                step_rel(*old(self), key, rnd, *final(self), *old(redraw), *final(redraw), r),
    {
        let rnd = random_byte();
        let r = self.step_with(key, rnd, redraw);
        proof {
            assert(step_rel(*old(self), key, rnd, *final(self), *old(redraw), *final(redraw), r));
        }
        r
    }
}

} // verus!
