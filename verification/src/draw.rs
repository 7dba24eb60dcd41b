//! The sprite draw / collision algorithm: sprites are 8 pixels wide, one
//! memory byte per row, most significant bit leftmost. Pixels are combined
//! into the framebuffer with XOR; a collision is any pixel that is lit both
//! on screen and in the sprite. Sprites clip at the right and bottom edges;
//! they do not wrap.

use vstd::prelude::*;

use crate::state::NUM_PIXELS;
use crate::state::RAM_SIZE;
use crate::state::SCHIP8_SCREEN_HEIGHT;
use crate::state::SCHIP8_SCREEN_WIDTH;

verus! {

/// Bit `j` of a sprite row byte, counted from the most significant bit, so
/// that bit 0 is the leftmost pixel of the row.
pub open spec fn sprite_bit(b: u8, j: int) -> u8
    recommends
        0 <= j < 8,
{
    (b >> ((7 - j) as u8)) & 1
}

/// Screen row (y coordinate) of the flat framebuffer index `i`.
pub open spec fn row_of(i: int) -> int {
    i / (SCHIP8_SCREEN_WIDTH as int)
}

/// Screen column (x coordinate) of the flat framebuffer index `i`.
pub open spec fn col_of(i: int) -> int {
    i % (SCHIP8_SCREEN_WIDTH as int)
}

/// Whether the flat framebuffer index `i` is touched by a sprite of `rows`
/// rows whose top-left corner is at (x0, y0). A row holds no column past
/// the screen width, so columns clip at the right edge by construction.
pub open spec fn covered(x0: int, y0: int, rows: int, i: int) -> bool {
    y0 <= row_of(i) < y0 + rows && x0 <= col_of(i) < x0 + 8
}

/// The sprite bit that lands on covered index `i`.
pub open spec fn bit_at(sprite: Seq<u8>, x0: int, y0: int, i: int) -> u8
    recommends
        covered(x0, y0, sprite.len() as int, i),
{
    sprite_bit(sprite[row_of(i) - y0], col_of(i) - x0)
}

/// The framebuffer after drawing `sprite` at (x0, y0): every covered pixel
/// is XORed with its sprite bit, every other pixel is unchanged. Rows that
/// would run off the bottom edge must already have been dropped from
/// `sprite`.
pub open spec fn draw_screen(s: Seq<u8>, x0: int, y0: int, sprite: Seq<u8>) -> Seq<u8>
    recommends
        s.len() == NUM_PIXELS,
        0 <= x0 < SCHIP8_SCREEN_WIDTH,
        0 <= y0,
        y0 + sprite.len() <= SCHIP8_SCREEN_HEIGHT,
{
    Seq::new(
        s.len(),
        |i: int|
            if covered(x0, y0, sprite.len() as int, i) {
                s[i] ^ bit_at(sprite, x0, y0, i)
            } else {
                s[i]
            },
    )
}

/// Whether drawing `sprite` at (x0, y0) collides: some covered pixel is lit
/// both on screen and in the sprite.
pub open spec fn draw_collides(s: Seq<u8>, x0: int, y0: int, sprite: Seq<u8>) -> bool {
    exists|i: int|
        0 <= i < s.len() && covered(x0, y0, sprite.len() as int, i) && s[i] == 1 && bit_at(
            sprite,
            x0,
            y0,
            i,
        ) == 1
}

/// Against an all-zero framebuffer no sprite can collide, wherever it is
/// drawn and whatever it holds.
pub proof fn lemma_no_collision_on_clear(s: Seq<u8>, x0: int, y0: int, sprite: Seq<u8>)
    requires
        forall|i: int| 0 <= i < s.len() ==> #[trigger] s[i] == 0,
    ensures
        !draw_collides(s, x0, y0, sprite),
{
    if draw_collides(s, x0, y0, sprite) {
        let i = choose|i: int|
            0 <= i < s.len() && covered(x0, y0, sprite.len() as int, i) && s[i] == 1 && bit_at(
                sprite,
                x0,
                y0,
                i,
            ) == 1;
        assert(s[i] == 0);
    }
}

/// How a flat index decomposes over rows and columns.
proof fn lemma_flat_index(y: int, c: int)
    by (nonlinear_arith)
    requires
        0 <= y,
        0 <= c < 64,
    ensures
        (y * 64 + c) / 64 == y,
        (y * 64 + c) % 64 == c,
{
}

/// XOR one sprite row byte into screen row `y` starting at column `x0`,
/// clipping at the right edge; report whether any lit pixel was hit.
fn draw_row(screen: &mut [u8; NUM_PIXELS], b: u8, x0: usize, y: usize) -> (hit: bool)
    requires
        x0 < SCHIP8_SCREEN_WIDTH,
        y < SCHIP8_SCREEN_HEIGHT,
        forall|i: int| 0 <= i < NUM_PIXELS ==> #[trigger] old(screen)@[i] <= 1,
    ensures
        forall|i: int| 0 <= i < NUM_PIXELS ==> #[trigger] final(screen)@[i] <= 1,
        forall|i: int|
            0 <= i < NUM_PIXELS && !(row_of(i) == y && x0 <= col_of(i) < x0 + 8)
                ==> #[trigger] final(screen)@[i] == old(screen)@[i],
        forall|i: int|
            0 <= i < NUM_PIXELS && row_of(i) == y && x0 <= col_of(i) < x0 + 8
                ==> #[trigger] final(screen)@[i] == (old(screen)@[i] ^ sprite_bit(
                b,
                col_of(i) - x0,
            )),
        hit == exists|j: int|
            0 <= j < 8 && x0 + j < SCHIP8_SCREEN_WIDTH && old(screen)@[y * 64 + x0 + j] == 1
                && sprite_bit(b, j) == 1,
{
    let ghost s0 = screen@;
    let mut hit = false;
    let mut j: usize = 0;
    while j < 8
        invariant
            j <= 8,
            x0 < SCHIP8_SCREEN_WIDTH,
            y < SCHIP8_SCREEN_HEIGHT,
            forall|i: int| 0 <= i < NUM_PIXELS ==> #[trigger] s0[i] <= 1,
            forall|i: int| 0 <= i < NUM_PIXELS ==> #[trigger] screen@[i] <= 1,
            forall|i: int|
                0 <= i < NUM_PIXELS && !(row_of(i) == y && x0 <= col_of(i) < x0 + j)
                    ==> #[trigger] screen@[i] == s0[i],
            forall|i: int|
                0 <= i < NUM_PIXELS && row_of(i) == y && x0 <= col_of(i) < x0 + j
                    ==> #[trigger] screen@[i] == (s0[i] ^ sprite_bit(b, col_of(i) - x0)),
            hit == exists|jj: int|
                0 <= jj < j && x0 + jj < SCHIP8_SCREEN_WIDTH && s0[y * 64 + x0 + jj] == 1
                    && sprite_bit(b, jj) == 1,
        decreases 8 - j,
    {
        if x0 + j < SCHIP8_SCREEN_WIDTH {
            let idx = y * SCHIP8_SCREEN_WIDTH + x0 + j;
            proof {
                lemma_flat_index(y as int, (x0 + j) as int);
                assert(idx < NUM_PIXELS);
            }
            let p = screen[idx];
            let sb = (b >> ((7 - j) as u8)) & 1;
            proof {
                assert(sb == sprite_bit(b, j as int));
                assert((b >> ((7 - j) as u8)) & 1 <= 1) by (bit_vector);
                assert(p ^ sb <= 1) by (bit_vector)
                    requires
                        p <= 1,
                        sb <= 1,
                ;
            }
            if p == 1 && sb == 1 {
                hit = true;
            }
            screen[idx] = p ^ sb;
            proof {
                assert(row_of(idx as int) == y && col_of(idx as int) == x0 + j);
            }
        } else {
            proof {
                // Columns past the right edge stay clipped for the rest of
                // the row: no further index is covered this iteration.
                assert(forall|i: int|
                    0 <= i < NUM_PIXELS && row_of(i) == y && x0 <= col_of(i) < x0 + j + 1
                        ==> x0 <= col_of(i) < x0 + j) by {
                    assert(forall|i: int| 0 <= i < NUM_PIXELS ==> col_of(i) < 64);
                };
            }
        }
        j = j + 1;
    }
    hit
}

/// Draw `rows` sprite rows fetched from memory at `ar` onward, with the
/// top-left corner at (x0, y0); report whether any collision happened.
pub fn draw_sprite(
    screen: &mut [u8; NUM_PIXELS],
    ram: &[u8; RAM_SIZE],
    ar: usize,
    x0: usize,
    y0: usize,
    rows: usize,
) -> (hit: bool)
    requires
        x0 < SCHIP8_SCREEN_WIDTH,
        y0 < SCHIP8_SCREEN_HEIGHT,
        y0 + rows <= SCHIP8_SCREEN_HEIGHT,
        ar + rows <= RAM_SIZE,
        forall|i: int| 0 <= i < NUM_PIXELS ==> #[trigger] old(screen)@[i] <= 1,
    ensures
        forall|i: int| 0 <= i < NUM_PIXELS ==> #[trigger] final(screen)@[i] <= 1,
        final(screen)@ == draw_screen(
            old(screen)@,
            x0 as int,
            y0 as int,
            ram@.subrange(ar as int, ar + rows),
        ),
        hit == draw_collides(
            old(screen)@,
            x0 as int,
            y0 as int,
            ram@.subrange(ar as int, ar + rows),
        ),
{
    let ghost s0 = screen@;
    let ghost sprite = ram@.subrange(ar as int, ar + rows);
    let mut hit = false;
    let mut r: usize = 0;
    while r < rows
        invariant
            r <= rows,
            x0 < SCHIP8_SCREEN_WIDTH,
            y0 < SCHIP8_SCREEN_HEIGHT,
            y0 + rows <= SCHIP8_SCREEN_HEIGHT,
            ar + rows <= RAM_SIZE,
            s0.len() == NUM_PIXELS,
            sprite == ram@.subrange(ar as int, ar + rows),
            forall|i: int| 0 <= i < NUM_PIXELS ==> #[trigger] s0[i] <= 1,
            forall|i: int| 0 <= i < NUM_PIXELS ==> #[trigger] screen@[i] <= 1,
            forall|i: int|
                0 <= i < NUM_PIXELS && !covered(x0 as int, y0 as int, r as int, i)
                    ==> #[trigger] screen@[i] == s0[i],
            forall|i: int|
                0 <= i < NUM_PIXELS && covered(x0 as int, y0 as int, r as int, i)
                    ==> #[trigger] screen@[i] == (s0[i] ^ bit_at(sprite, x0 as int, y0 as int, i)),
            hit == exists|i: int|
                0 <= i < NUM_PIXELS && covered(x0 as int, y0 as int, r as int, i) && s0[i] == 1
                    && bit_at(sprite, x0 as int, y0 as int, i) == 1,
        decreases rows - r,
    {
        let b = ram[ar + r];
        let ghost mid = screen@;
        let rowhit = draw_row(screen, b, x0, y0 + r);
        proof {
            assert(b == sprite[r as int]);
            // A pixel covered with r + 1 rows lies either in a previously
            // drawn row or in the row just drawn.
            assert forall|i: int|
                0 <= i < NUM_PIXELS && covered(x0 as int, y0 as int, r + 1, i) implies screen@[i]
                == (s0[i] ^ bit_at(sprite, x0 as int, y0 as int, i)) by {
                if row_of(i) == y0 + r {
                    assert(mid[i] == s0[i]);
                    assert(screen@[i] == (mid[i] ^ sprite_bit(b, col_of(i) - x0)));
                } else {
                    assert(covered(x0 as int, y0 as int, r as int, i));
                    assert(screen@[i] == mid[i]);
                }
            };
            assert forall|i: int|
                0 <= i < NUM_PIXELS && !covered(x0 as int, y0 as int, r + 1, i) implies screen@[i]
                == s0[i] by {
                assert(!covered(x0 as int, y0 as int, r as int, i));
                assert(mid[i] == s0[i]);
                if row_of(i) == y0 + r {
                    assert(!(x0 <= col_of(i) < x0 + 8));
                    assert(screen@[i] == mid[i]);
                } else {
                    assert(screen@[i] == mid[i]);
                }
            };
            // Translate the row-local collision report into flat indices.
            if hit {
                // An old witness stays a witness: one more row covers more.
                let i0 = choose|i: int|
                    0 <= i < NUM_PIXELS && covered(x0 as int, y0 as int, r as int, i) && s0[i] == 1
                        && bit_at(sprite, x0 as int, y0 as int, i) == 1;
                assert(covered(x0 as int, y0 as int, r + 1, i0));
            }
            if rowhit {
                let j = choose|j: int|
                    0 <= j < 8 && x0 + j < SCHIP8_SCREEN_WIDTH && mid[(y0 + r) * 64 + x0 + j] == 1
                        && sprite_bit(b, j) == 1;
                let i = (y0 + r) * 64 + x0 + j;
                lemma_flat_index(y0 + r, x0 + j);
                assert(0 <= i < NUM_PIXELS);
                assert(covered(x0 as int, y0 as int, r + 1, i));
                assert(mid[i] == s0[i]);
                assert(bit_at(sprite, x0 as int, y0 as int, i) == sprite_bit(b, j));
                assert(s0[i] == 1 && bit_at(sprite, x0 as int, y0 as int, i) == 1);
            } else if !hit {
                assert forall|i: int|
                    0 <= i < NUM_PIXELS && covered(x0 as int, y0 as int, r + 1, i) && s0[i] == 1
                        implies bit_at(sprite, x0 as int, y0 as int, i) != 1 by {
                    if row_of(i) == y0 + r {
                        let j = col_of(i) - x0;
                        assert(i == row_of(i) * 64 + col_of(i));
                        assert(0 <= j < 8 && x0 + j < SCHIP8_SCREEN_WIDTH);
                        assert(mid[i] == s0[i]);
                        assert(!(mid[(y0 + r) * 64 + x0 + j] == 1 && sprite_bit(b, j) == 1));
                        assert(bit_at(sprite, x0 as int, y0 as int, i) == sprite_bit(b, j));
                    } else {
                        assert(covered(x0 as int, y0 as int, r as int, i));
                        if bit_at(sprite, x0 as int, y0 as int, i) == 1 {
                            assert(0 <= i < NUM_PIXELS && covered(x0 as int, y0 as int, r as int, i)
                                && s0[i] == 1 && bit_at(sprite, x0 as int, y0 as int, i) == 1);
                            assert(false);
                        }
                    }
                };
            }
        }
        if rowhit {
            hit = true;
        }
        r = r + 1;
    }
    proof {
        assert(final(screen)@ =~= draw_screen(s0, x0 as int, y0 as int, sprite));
    }
    hit
}

} // verus!
