//! Laws of the interpreter: properties that relate several instructions or
//! hold of every machine state, stated over the step relation and proved
//! once and for all.

use vstd::prelude::*;

use crate::decode::lemma_decode_wf;
use crate::decode::Instr;
use crate::draw;
use crate::exec::cur_instr;
use crate::exec::fetch_hi;
use crate::exec::fetch_lo;
use crate::exec::step_rel;
use crate::fault::Fault;
use crate::font;
use crate::state::SChip8;
use crate::state::NUM_KEYS;
use crate::state::NUM_PIXELS;
use crate::state::RAM_SIZE;

verus! {

/// After the font-address instruction with VX = d for a hex digit d, the
/// address register holds 5 * d, and the five memory bytes from there on
/// are the built-in glyph for d.
pub proof fn lemma_font_char(
    m: SChip8,
    key: usize,
    rnd: u8,
    post: SChip8,
    draw0: bool,
    draw1: bool,
    res: Result<bool, Fault>,
    x: u8,
    d: u16,
)
    requires
        m.wf(),
        m.pc + 1 < RAM_SIZE,
        m.font_loaded(),
        cur_instr(m) == (Instr::FontChar { x }),
        m.v@[x as int] == d,
        d < 16,
        step_rel(m, key, rnd, post, draw0, draw1, res),
    ensures
        res == Ok::<bool, Fault>(true),
        post.ar == 5 * d,
        forall|r: int|
            0 <= r < 5 ==> #[trigger] post.ram@[5 * d + r] == font::glyph_byte(d as int, r),
{
    lemma_decode_wf(fetch_hi(m), fetch_lo(m));
    assert(post.ar == ((d * 5) % 0x1000) as u16);
    assert forall|r: int| 0 <= r < 5 implies #[trigger] post.ram@[5 * d + r] == font::glyph_byte(
        d as int,
        r,
    ) by {
        assert(post.ram@[5 * d + r] == m.ram@[5 * d + r]);
        assert(m.ram@[5 * d + r] == font::font_seq()[5 * d + r]);
    }
}

/// A clear followed by any draw cannot collide: against an all-zero
/// framebuffer the collision flag comes out 0.
pub proof fn lemma_clear_then_draw(
    m: SChip8,
    key1: usize,
    rnd1: u8,
    m1: SChip8,
    draw0: bool,
    draw1: bool,
    r1: Result<bool, Fault>,
    key2: usize,
    rnd2: u8,
    m2: SChip8,
    draw2: bool,
    r2: Result<bool, Fault>,
    x: u8,
    y: u8,
    n: u8,
)
    requires
        m.wf(),
        m.pc + 1 < RAM_SIZE,
        cur_instr(m) == Instr::Cls,
        step_rel(m, key1, rnd1, m1, draw0, draw1, r1),
        m1.pc + 1 < RAM_SIZE,
        cur_instr(m1) == (Instr::Draw { x, y, n }),
        step_rel(m1, key2, rnd2, m2, draw1, draw2, r2),
        r2 is Ok,
    ensures
        m2.v@[15] == 0,
{
    let v1 = m1.v@.update(15, 0u16);
    let x0 = (v1[x as int] as int) % 64;
    let y0 = (v1[y as int] as int) % 32;
    let rows = if n as int <= 32 - y0 {
        n as int
    } else {
        32 - y0
    };
    let sprite = m1.ram@.subrange(m1.ar as int, m1.ar + rows);
    draw::lemma_no_collision_on_clear(m1.screen@, x0, y0, sprite);
    assert(m2.v@ == m1.v@.update(15, 0u16));
}

/// Storing V0..VX at I and then loading V0..VX back from I restores the
/// registers exactly and leaves the address register unchanged, for every
/// X and all byte-sized register contents.
pub proof fn lemma_store_load_round_trip(
    m: SChip8,
    key1: usize,
    rnd1: u8,
    m1: SChip8,
    draw0: bool,
    draw1: bool,
    r1: Result<bool, Fault>,
    key2: usize,
    rnd2: u8,
    m2: SChip8,
    draw2: bool,
    r2: Result<bool, Fault>,
    x: u8,
)
    requires
        m.wf(),
        m.pc + 1 < RAM_SIZE,
        cur_instr(m) == (Instr::StoreRegs { x }),
        forall|i: int| 0 <= i <= x ==> #[trigger] m.v@[i] < 256,
        step_rel(m, key1, rnd1, m1, draw0, draw1, r1),
        r1 is Ok,
        m1.pc + 1 < RAM_SIZE,
        cur_instr(m1) == (Instr::LoadRegs { x }),
        step_rel(m1, key2, rnd2, m2, draw1, draw2, r2),
        r2 is Ok,
    ensures
        r1 == Ok::<bool, Fault>(true),
        r2 == Ok::<bool, Fault>(true),
        m2.v@ == m.v@,
        m2.ar == m.ar,
{
    lemma_decode_wf(fetch_hi(m), fetch_lo(m));
    let ar = m.ar as int;
    assert(m1.ar == m.ar);
    assert forall|i: int| 0 <= i < 16 implies #[trigger] m2.v@[i] == m.v@[i] by {
        if i <= x {
            assert(m1.ram@[ar + i] == (m.v@[i] % 256) as u8);
            assert(m2.v@[i] == m1.ram@[ar + i] as u16);
        } else {
            assert(m2.v@[i] == m1.v@[i]);
            assert(m1.v@[i] == m.v@[i]);
        }
    }
    assert(m2.v@ =~= m.v@);
}

/// What one successful draw does, pixel by pixel: inside the sprite
/// rectangle every pixel is XORed with its sprite bit; everything outside
/// it, in particular everything left of the sprite, right of column
/// x0 + 7, and past the clipped edges, is untouched. Columns clip at the
/// right edge and rows at the bottom edge; nothing wraps around.
pub proof fn lemma_draw_exact(
    m: SChip8,
    key: usize,
    rnd: u8,
    post: SChip8,
    draw0: bool,
    draw1: bool,
    res: Result<bool, Fault>,
    x: u8,
    y: u8,
    n: u8,
)
    requires
        m.wf(),
        m.pc + 1 < RAM_SIZE,
        cur_instr(m) == (Instr::Draw { x, y, n }),
        step_rel(m, key, rnd, post, draw0, draw1, res),
        res is Ok,
    ensures
        ({
            let v1 = m.v@.update(15, 0u16);
            let x0 = (v1[x as int] as int) % 64;
            let y0 = (v1[y as int] as int) % 32;
            let rows = if n as int <= 32 - y0 {
                n as int
            } else {
                32 - y0
            };
            &&& forall|i: int|
                0 <= i < NUM_PIXELS && !draw::covered(x0, y0, rows, i)
                    ==> #[trigger] post.screen@[i] == m.screen@[i]
            &&& forall|i: int|
                0 <= i < NUM_PIXELS && draw::covered(x0, y0, rows, i)
                    ==> #[trigger] post.screen@[i] == (m.screen@[i] ^ draw::sprite_bit(
                    m.ram@[m.ar + (draw::row_of(i) - y0)],
                    draw::col_of(i) - x0,
                ))
        }),
{
    let v1 = m.v@.update(15, 0u16);
    let x0 = (v1[x as int] as int) % 64;
    let y0 = (v1[y as int] as int) % 32;
    let rows = if n as int <= 32 - y0 {
        n as int
    } else {
        32 - y0
    };
    let sprite = m.ram@.subrange(m.ar as int, m.ar + rows);
    assert(post.screen@ == draw::draw_screen(m.screen@, x0, y0, sprite));
    assert forall|i: int|
        0 <= i < NUM_PIXELS && draw::covered(x0, y0, rows, i)
            implies #[trigger] post.screen@[i] == (m.screen@[i] ^ draw::sprite_bit(
            m.ram@[m.ar + (draw::row_of(i) - y0)],
            draw::col_of(i) - x0,
        )) by {
        assert(post.screen@[i] == (m.screen@[i] ^ draw::bit_at(sprite, x0, y0, i)));
        assert(sprite[draw::row_of(i) - y0] == m.ram@[m.ar + (draw::row_of(i) - y0)]);
    }
}

/// A call pushes the address of the call itself; a later return that still
/// finds that frame on top of the stack resumes right after the call, with
/// the stack balanced again, whatever ran in between.
pub proof fn lemma_call_then_return(
    m: SChip8,
    key1: usize,
    rnd1: u8,
    m1: SChip8,
    draw0: bool,
    draw1: bool,
    r1: Result<bool, Fault>,
    mr: SChip8,
    key2: usize,
    rnd2: u8,
    post: SChip8,
    draw2: bool,
    draw3: bool,
    r2: Result<bool, Fault>,
    nnn: u16,
)
    requires
        m.wf(),
        m.pc + 1 < RAM_SIZE,
        cur_instr(m) == (Instr::Call { nnn }),
        step_rel(m, key1, rnd1, m1, draw0, draw1, r1),
        r1 is Ok,
        mr.wf(),
        mr.pc + 1 < RAM_SIZE,
        mr.sp == m1.sp,
        mr.stack@[m.sp as int] == m1.stack@[m.sp as int],
        cur_instr(mr) == Instr::Ret,
        step_rel(mr, key2, rnd2, post, draw2, draw3, r2),
    ensures
        m1.pc == nnn,
        m1.sp == m.sp + 1,
        r2 == Ok::<bool, Fault>(true),
        post.pc == m.pc + 2,
        post.sp == m.sp,
{
    assert(m1.stack@[m.sp as int] == m.pc);
    assert(mr.sp > 0);
    assert(post.pc == mr.stack@[mr.sp - 1] + 2);
}

/// The blocking key wait, realized as poll and retry: with no key supplied
/// the step changes nothing at all, so repeating it stands still; the step
/// in which a key k is supplied stores k in VX exactly once and moves on.
pub proof fn lemma_wait_key(
    m: SChip8,
    key: usize,
    rnd: u8,
    post: SChip8,
    draw0: bool,
    draw1: bool,
    res: Result<bool, Fault>,
    x: u8,
)
    requires
        m.wf(),
        m.pc + 1 < RAM_SIZE,
        cur_instr(m) == (Instr::WaitKey { x }),
        step_rel(m, key, rnd, post, draw0, draw1, res),
    ensures
        res == Ok::<bool, Fault>(true),
        draw1 == draw0,
        key >= NUM_KEYS ==> post == m,
        key < NUM_KEYS ==> {
            &&& post == (SChip8 { v: post.v, pc: post.pc, ..m })
            &&& post.v@ == m.v@.update(x as int, key as u16)
            &&& post.pc == m.pc + 2
        },
{
}

} // verus!
