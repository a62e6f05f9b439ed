//! Machine-wide laws: properties that relate several operations, proved
//! from the same specifications the executable code is verified
//! against.

use vstd::prelude::*;

use crate::constants::{SCREEN_HEIGHT, SCREEN_WIDTH};
use crate::data_register::DataRegister;
use crate::draw::{spec_draw, spec_draw_collision, spec_draw_hits};
use crate::execute::execute_rel;
use crate::instruction::Instruction;
use crate::machine::MachineView;
use crate::pixel::Pixel;
use crate::screen::screen_grid_wf;
use crate::sprite::spec_sprite_bit;

verus! {

/// Every `On` bit of the sprite lands on an `Off` screen cell when
/// drawn at `(sx, sy)`: the drawing area is clear.
pub open spec fn spec_draw_area_clear(
    screen: Seq<Seq<Pixel>>,
    sprite: Seq<u8>,
    sx: int,
    sy: int,
) -> bool {
    forall|r: int, c: int|
        0 <= r < sprite.len() && 0 <= c < 8 && #[trigger] spec_sprite_bit(sprite, r, c)
            ==> screen[(sy + r) % (SCREEN_HEIGHT as int)][(sx + c) % (SCREEN_WIDTH as int)]
            == Pixel::Off
}

/// The sprite has at least one `On` pixel.
pub open spec fn spec_sprite_has_on_bit(sprite: Seq<u8>) -> bool {
    exists|r: int, c: int| 0 <= r < sprite.len() && 0 <= c < 8 && #[trigger] spec_sprite_bit(sprite, r, c)
}

/// Block-transfer round trip: for every register identifier `vx`,
/// dumping registers `V0..=vx` to memory and then loading the same
/// inclusive range back — with the address register unchanged in
/// between, as the dump leaves it — restores every register exactly,
/// including the single-register range `vx = V0`.
pub proof fn lemma_block_transfer_round_trip(
    pre: MachineView,
    mid: MachineView,
    post: MachineView,
    vx: DataRegister,
)
    requires
        pre.wf(),
        execute_rel(pre, mid, Instruction::StoreRegistersInMemory { vx }, Ok(())),
        execute_rel(mid, post, Instruction::FillRegistersFromMemory { vx }, Ok(())),
    ensures
        post.regs == pre.regs,
{
    reveal(execute_rel);
    assert(post.regs =~= pre.regs);
}

/// Drawing the same sprite twice at the same coordinates XORs every
/// touched pixel back, restoring the original screen. If the drawing
/// area was initially clear, the first draw reports no collision, and
/// the second draw reports one as soon as the sprite has any `On`
/// pixel (every such pixel is erased).
pub proof fn lemma_draw_twice_erases(screen: Seq<Seq<Pixel>>, sprite: Seq<u8>, sx: int, sy: int)
    requires
        screen_grid_wf(screen),
        sprite.len() <= SCREEN_HEIGHT,
        sx >= 0,
        sy >= 0,
    ensures
        spec_draw(spec_draw(screen, sprite, sx, sy), sprite, sx, sy) == screen,
        spec_draw_area_clear(screen, sprite, sx, sy) ==> !spec_draw_collision(
            screen,
            sprite,
            sx,
            sy,
        ),
        spec_draw_area_clear(screen, sprite, sx, sy) && spec_sprite_has_on_bit(sprite)
            ==> spec_draw_collision(spec_draw(screen, sprite, sx, sy), sprite, sx, sy),
{
    let h = SCREEN_HEIGHT as int;
    let w = SCREEN_WIDTH as int;
    let k = 8 * (sprite.len() as int);
    let s1 = spec_draw(screen, sprite, sx, sy);

    // Double draw restores the screen: the same cells are hit both
    // times, and XOR-ing with On twice is the identity.
    assert forall|py: int, px: int| 0 <= py < h && 0 <= px < w implies spec_draw(
        s1,
        sprite,
        sx,
        sy,
    )[py][px] == screen[py][px] by {
        if spec_draw_hits(sprite, sx, sy, py, px, k) {
            assert(s1[py][px] == screen[py][px].spec_xor(Pixel::On));
        }
    }
    assert(spec_draw(s1, sprite, sx, sy) =~~= screen);

    // A clear area means no On bit lands on an On cell.
    if spec_draw_area_clear(screen, sprite, sx, sy) {
        if spec_draw_collision(screen, sprite, sx, sy) {
            let (r, c) = choose|r: int, c: int|
                0 <= r < sprite.len() && 0 <= c < 8 && 8 * r + c < k && spec_sprite_bit(
                    sprite,
                    r,
                    c,
                ) && screen[(sy + r) % h][(sx + c) % w] == Pixel::On;
            assert(spec_sprite_bit(sprite, r, c));
            assert(false);
        }
        // After the first draw, every On bit sits on an On cell.
        if spec_sprite_has_on_bit(sprite) {
            let (r, c) = choose|r: int, c: int|
                0 <= r < sprite.len() && 0 <= c < 8 && #[trigger] spec_sprite_bit(sprite, r, c);
            vstd::arithmetic::div_mod::lemma_mod_bound(sy + r, h);
            vstd::arithmetic::div_mod::lemma_mod_bound(sx + c, w);
            let py = (sy + r) % h;
            let px = (sx + c) % w;
            assert(spec_draw_hits(sprite, sx, sy, py, px, k));
            assert(s1[py][px] == screen[py][px].spec_xor(Pixel::On));
            assert(s1[py][px] == Pixel::On);
            assert(spec_draw_collision(s1, sprite, sx, sy));
        }
    }
}

/// Coordinate wraparound: drawing at `x + SCREEN_WIDTH` is the same
/// draw as at `x`, and likewise for `y + SCREEN_HEIGHT`. In
/// particular, drawing at `x = SCREEN_WIDTH` is drawing at `x = 0`.
pub proof fn lemma_draw_wraparound(screen: Seq<Seq<Pixel>>, sprite: Seq<u8>, sx: int, sy: int)
    requires
        screen_grid_wf(screen),
        sx >= 0,
        sy >= 0,
    ensures
        spec_draw(screen, sprite, sx + SCREEN_WIDTH, sy) == spec_draw(screen, sprite, sx, sy),
        spec_draw(screen, sprite, sx, sy + SCREEN_HEIGHT) == spec_draw(screen, sprite, sx, sy),
        spec_draw_collision(screen, sprite, sx + SCREEN_WIDTH, sy) == spec_draw_collision(
            screen,
            sprite,
            sx,
            sy,
        ),
        spec_draw_collision(screen, sprite, sx, sy + SCREEN_HEIGHT) == spec_draw_collision(
            screen,
            sprite,
            sx,
            sy,
        ),
{
    let h = SCREEN_HEIGHT as int;
    let w = SCREEN_WIDTH as int;
    let k = 8 * (sprite.len() as int);

    assert forall|c: int| #[trigger] ((sx + w + c) % w) == (sx + c) % w by {
        vstd::arithmetic::div_mod::lemma_mod_add_multiples_vanish(sx + c, w);
    }
    assert forall|r: int| #[trigger] ((sy + h + r) % h) == (sy + r) % h by {
        vstd::arithmetic::div_mod::lemma_mod_add_multiples_vanish(sy + r, h);
    }

    assert forall|py: int, px: int|
        #![trigger spec_draw_hits(sprite, sx + w, sy, py, px, k)]
        spec_draw_hits(sprite, sx + w, sy, py, px, k) == spec_draw_hits(
            sprite,
            sx,
            sy,
            py,
            px,
            k,
        ) by {
        if spec_draw_hits(sprite, sx + w, sy, py, px, k) {
            let (r, c) = choose|r: int, c: int|
                0 <= r < sprite.len() && 0 <= c < 8 && 8 * r + c < k && spec_sprite_bit(
                    sprite,
                    r,
                    c,
                ) && py == (sy + r) % h && px == ((sx + w) + c) % w;
            assert(px == (sx + c) % w);
            assert(spec_draw_hits(sprite, sx, sy, py, px, k));
        }
        if spec_draw_hits(sprite, sx, sy, py, px, k) {
            let (r, c) = choose|r: int, c: int|
                0 <= r < sprite.len() && 0 <= c < 8 && 8 * r + c < k && spec_sprite_bit(
                    sprite,
                    r,
                    c,
                ) && py == (sy + r) % h && px == (sx + c) % w;
            assert(px == ((sx + w) + c) % w);
            assert(spec_draw_hits(sprite, sx + w, sy, py, px, k));
        }
    }
    assert(spec_draw(screen, sprite, sx + w, sy) =~~= spec_draw(screen, sprite, sx, sy));

    assert forall|py: int, px: int|
        #![trigger spec_draw_hits(sprite, sx, sy + h, py, px, k)]
        spec_draw_hits(sprite, sx, sy + h, py, px, k) == spec_draw_hits(
            sprite,
            sx,
            sy,
            py,
            px,
            k,
        ) by {
        if spec_draw_hits(sprite, sx, sy + h, py, px, k) {
            let (r, c) = choose|r: int, c: int|
                0 <= r < sprite.len() && 0 <= c < 8 && 8 * r + c < k && spec_sprite_bit(
                    sprite,
                    r,
                    c,
                ) && py == ((sy + h) + r) % h && px == (sx + c) % w;
            assert(py == (sy + r) % h);
            assert(spec_draw_hits(sprite, sx, sy, py, px, k));
        }
        if spec_draw_hits(sprite, sx, sy, py, px, k) {
            let (r, c) = choose|r: int, c: int|
                0 <= r < sprite.len() && 0 <= c < 8 && 8 * r + c < k && spec_sprite_bit(
                    sprite,
                    r,
                    c,
                ) && py == (sy + r) % h && px == (sx + c) % w;
            assert(py == ((sy + h) + r) % h);
            assert(spec_draw_hits(sprite, sx, sy + h, py, px, k));
        }
    }
    assert(spec_draw(screen, sprite, sx, sy + h) =~~= spec_draw(screen, sprite, sx, sy));

    if spec_draw_collision(screen, sprite, sx + w, sy) {
        let (r, c) = choose|r: int, c: int|
            0 <= r < sprite.len() && 0 <= c < 8 && 8 * r + c < k && spec_sprite_bit(sprite, r, c)
                && screen[(sy + r) % h][((sx + w) + c) % w] == Pixel::On;
        assert(((sx + w) + c) % w == (sx + c) % w);
        assert(spec_draw_collision(screen, sprite, sx, sy));
    }
    if spec_draw_collision(screen, sprite, sx, sy) {
        let (r, c) = choose|r: int, c: int|
            0 <= r < sprite.len() && 0 <= c < 8 && 8 * r + c < k && spec_sprite_bit(sprite, r, c)
                && screen[(sy + r) % h][(sx + c) % w] == Pixel::On;
        assert(((sx + w) + c) % w == (sx + c) % w);
        assert(spec_draw_collision(screen, sprite, sx + w, sy));
        assert(((sy + h) + r) % h == (sy + r) % h);
        assert(spec_draw_collision(screen, sprite, sx, sy + h));
    }
    if spec_draw_collision(screen, sprite, sx, sy + h) {
        let (r, c) = choose|r: int, c: int|
            0 <= r < sprite.len() && 0 <= c < 8 && 8 * r + c < k && spec_sprite_bit(sprite, r, c)
                && screen[((sy + h) + r) % h][(sx + c) % w] == Pixel::On;
        assert(((sy + h) + r) % h == (sy + r) % h);
        assert(spec_draw_collision(screen, sprite, sx, sy));
    }
}

} // verus!
