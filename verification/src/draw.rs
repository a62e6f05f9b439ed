//! The mathematical semantics of the sprite blit: XOR composition of a
//! sprite onto the screen with both coordinates wrapped independently,
//! and the collision predicate (some previously-`On` pixel turned
//! `Off`).
//!
//! The blit is stated pointwise. Because a sprite is at most 8 pixels
//! wide and its rows fit inside the screen height, no two sprite pixels
//! land on the same screen cell, so a cell is flipped exactly when some
//! `On` sprite bit maps to it.

use vstd::prelude::*;

use crate::constants::{SCREEN_HEIGHT, SCREEN_WIDTH};
use crate::pixel::Pixel;
use crate::screen::screen_grid_wf;
use crate::sprite::spec_sprite_bit;

verus! {

/// The sprite pixel in row-major position `k` (`k = 8*row + col`) is
/// `On` and lands on screen cell `(py, px)` when the sprite is drawn at
/// `(sx, sy)`.
pub open spec fn spec_draw_hits(
    sprite: Seq<u8>,
    sx: int,
    sy: int,
    py: int,
    px: int,
    k: int,
) -> bool {
    exists|r: int, c: int|
        0 <= r < sprite.len() && 0 <= c < 8 && 8 * r + c < k && spec_sprite_bit(sprite, r, c) && py
            == (sy + r) % (SCREEN_HEIGHT as int) && px == (sx + c) % (SCREEN_WIDTH as int)
}

/// The screen after composing the first `k` sprite pixels (row-major)
/// at `(sx, sy)`: a cell is flipped exactly when an `On` sprite bit
/// among them lands on it.
pub open spec fn spec_draw_partial(
    screen: Seq<Seq<Pixel>>,
    sprite: Seq<u8>,
    sx: int,
    sy: int,
    k: int,
) -> Seq<Seq<Pixel>> {
    Seq::new(
        SCREEN_HEIGHT as nat,
        |py: int|
            Seq::new(
                SCREEN_WIDTH as nat,
                |px: int|
                    if spec_draw_hits(sprite, sx, sy, py, px, k) {
                        screen[py][px].spec_xor(Pixel::On)
                    } else {
                        screen[py][px]
                    },
            ),
    )
}

/// Among the first `k` sprite pixels, some `On` bit lands on a cell
/// that is already `On` (and would therefore be erased).
pub open spec fn spec_draw_collision_partial(
    screen: Seq<Seq<Pixel>>,
    sprite: Seq<u8>,
    sx: int,
    sy: int,
    k: int,
) -> bool {
    exists|r: int, c: int|
        0 <= r < sprite.len() && 0 <= c < 8 && 8 * r + c < k && spec_sprite_bit(sprite, r, c)
            && screen[(sy + r) % (SCREEN_HEIGHT as int)][(sx + c) % (SCREEN_WIDTH as int)]
            == Pixel::On
}

/// The screen after the whole sprite is composed at `(sx, sy)`.
pub open spec fn spec_draw(screen: Seq<Seq<Pixel>>, sprite: Seq<u8>, sx: int, sy: int) -> Seq<
    Seq<Pixel>,
> {
    spec_draw_partial(screen, sprite, sx, sy, 8 * (sprite.len() as int))
}

/// Composing the whole sprite at `(sx, sy)` erases some
/// previously-`On` cell.
pub open spec fn spec_draw_collision(
    screen: Seq<Seq<Pixel>>,
    sprite: Seq<u8>,
    sx: int,
    sy: int,
) -> bool {
    spec_draw_collision_partial(screen, sprite, sx, sy, 8 * (sprite.len() as int))
}

/// Offsets below a positive modulus that wrap to the same residue are
/// equal.
proof fn lemma_wrap_injective(s: int, a: int, b: int, m: int)
    requires
        m > 0,
        s >= 0,
        0 <= a < m,
        0 <= b < m,
        (s + a) % m == (s + b) % m,
    ensures
        a == b,
{
    let qa = (s + a) / m;
    let qb = (s + b) / m;
    vstd::arithmetic::div_mod::lemma_fundamental_div_mod(s + a, m);
    vstd::arithmetic::div_mod::lemma_fundamental_div_mod(s + b, m);
    assert(a - b == (qa - qb) * m) by (nonlinear_arith)
        requires
            s + a == qa * m + (s + a) % m,
            s + b == qb * m + (s + b) % m,
            (s + a) % m == (s + b) % m,
    ;
    if qa != qb {
        assert((qa - qb) * m >= m || (qa - qb) * m <= -m) by (nonlinear_arith)
            requires
                m > 0,
                qa != qb,
        ;
    }
}

/// Before any sprite pixel is composed, the screen is unchanged and no
/// collision has happened.
pub proof fn lemma_draw_partial_zero(screen: Seq<Seq<Pixel>>, sprite: Seq<u8>, sx: int, sy: int)
    requires
        screen_grid_wf(screen),
    ensures
        spec_draw_partial(screen, sprite, sx, sy, 0) == screen,
        !spec_draw_collision_partial(screen, sprite, sx, sy, 0),
{
    assert(spec_draw_partial(screen, sprite, sx, sy, 0) =~~= screen);
}

/// Composing one more sprite pixel — row `y`, column `x`, row-major
/// position `k = 8*y + x` — XORs that pixel onto its (so far untouched)
/// target cell and extends the collision predicate by exactly that
/// cell.
pub proof fn lemma_draw_partial_step(
    screen: Seq<Seq<Pixel>>,
    sprite: Seq<u8>,
    sx: int,
    sy: int,
    y: int,
    x: int,
)
    requires
        screen_grid_wf(screen),
        sprite.len() <= SCREEN_HEIGHT,
        0 <= y < sprite.len(),
        0 <= x < 8,
        sx >= 0,
        sy >= 0,
    ensures
        ({
            let k = 8 * y + x;
            let cur = spec_draw_partial(screen, sprite, sx, sy, k);
            let ty = (sy + y) % (SCREEN_HEIGHT as int);
            let tx = (sx + x) % (SCREEN_WIDTH as int);
            let pix = Pixel::spec_from_bool(spec_sprite_bit(sprite, y, x));
            &&& cur[ty][tx] == screen[ty][tx]
            &&& spec_draw_partial(screen, sprite, sx, sy, k + 1) == cur.update(
                ty,
                cur[ty].update(tx, cur[ty][tx].spec_xor(pix)),
            )
            &&& spec_draw_collision_partial(screen, sprite, sx, sy, k + 1) == (
            spec_draw_collision_partial(screen, sprite, sx, sy, k) || (spec_sprite_bit(sprite, y, x)
                && screen[ty][tx] == Pixel::On))
        }),
{
    let k = 8 * y + x;
    let cur = spec_draw_partial(screen, sprite, sx, sy, k);
    let nxt = spec_draw_partial(screen, sprite, sx, sy, k + 1);
    let h = SCREEN_HEIGHT as int;
    let w = SCREEN_WIDTH as int;
    let ty = (sy + y) % h;
    let tx = (sx + x) % w;
    let pix = Pixel::spec_from_bool(spec_sprite_bit(sprite, y, x));

    vstd::arithmetic::div_mod::lemma_mod_bound(sy + y, h);
    vstd::arithmetic::div_mod::lemma_mod_bound(sx + x, w);

    // The pair (y, x) is the only sprite pixel in row-major position k,
    // and row-major positions below k belong to other pairs, which by
    // injectivity of wrapping land on other cells.
    assert forall|r: int, c: int|
        0 <= r < sprite.len() && 0 <= c < 8 && #[trigger] ((sy + r) % h) == ty && #[trigger] ((sx
            + c) % w) == tx implies r == y && c == x by {
        lemma_wrap_injective(sy, r, y, h);
        lemma_wrap_injective(sx, c, x, w);
    }

    // Target cell untouched by the first k pixels.
    assert(!spec_draw_hits(sprite, sx, sy, ty, tx, k));
    assert(cur[ty][tx] == screen[ty][tx]);

    // Pointwise: every cell of nxt equals the corresponding cell of the
    // updated cur.
    assert forall|py: int, px: int| 0 <= py < h && 0 <= px < w implies nxt[py][px]
        == cur.update(ty, cur[ty].update(tx, cur[ty][tx].spec_xor(pix)))[py][px] by {
        if py == ty && px == tx {
            if spec_sprite_bit(sprite, y, x) {
                assert(spec_draw_hits(sprite, sx, sy, py, px, k + 1));
            } else {
                assert(spec_draw_hits(sprite, sx, sy, py, px, k + 1) == spec_draw_hits(
                    sprite,
                    sx,
                    sy,
                    py,
                    px,
                    k,
                ));
            }
        } else {
            assert(spec_draw_hits(sprite, sx, sy, py, px, k + 1) == spec_draw_hits(
                sprite,
                sx,
                sy,
                py,
                px,
                k,
            )) by {
                if spec_draw_hits(sprite, sx, sy, py, px, k + 1) {
                    let (r, c) = choose|r: int, c: int|
                        0 <= r < sprite.len() && 0 <= c < 8 && 8 * r + c < k + 1
                            && spec_sprite_bit(sprite, r, c) && py == (sy + r) % h && px == (sx + c)
                            % w;
                    assert(!(r == y && c == x));
                    assert(8 * r + c < k);
                    assert(spec_draw_hits(sprite, sx, sy, py, px, k));
                }
            }
        }
    }
    assert(nxt =~~= cur.update(ty, cur[ty].update(tx, cur[ty][tx].spec_xor(pix))));

    // Collision: the new pixel contributes exactly when it is On and its
    // target cell was On in the original screen.
    if spec_draw_collision_partial(screen, sprite, sx, sy, k) {
        assert(spec_draw_collision_partial(screen, sprite, sx, sy, k + 1));
    }
    if spec_sprite_bit(sprite, y, x) && screen[ty][tx] == Pixel::On {
        assert(spec_draw_collision_partial(screen, sprite, sx, sy, k + 1));
    }
    if spec_draw_collision_partial(screen, sprite, sx, sy, k + 1) {
        let (r, c) = choose|r: int, c: int|
            0 <= r < sprite.len() && 0 <= c < 8 && 8 * r + c < k + 1 && spec_sprite_bit(sprite, r, c)
                && screen[(sy + r) % h][(sx + c) % w] == Pixel::On;
        if 8 * r + c < k {
            assert(spec_draw_collision_partial(screen, sprite, sx, sy, k));
        } else {
            assert(r == y && c == x);
        }
    }
}

} // verus!
