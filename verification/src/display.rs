//! The pixel array: drawing sprites on it, and the colours it is shown in.

use vstd::prelude::*;
use crate::machine::{collides, draw, sprite_bit, sprite_hits};

verus! {

/// The colour in which a pixel is painted, as red, green and blue: green
/// where it is lit, black where it is not.
pub fn color(lit: bool) -> (rgb: (u8, u8, u8))
    ensures
        rgb == if lit {
            (0u8, 250u8, 0u8)
        } else {
            (0u8, 0u8, 0u8)
        },
{
    if lit {
        (0, 250, 0)
    } else {
        (0, 0, 0)
    }
}

/// A pixel array as the rows of a display.
pub open spec fn grid(vram: [[bool; 64]; 32]) -> Seq<Seq<bool>> {
    Seq::new(32, |row: int| vram@[row]@)
}

/// Draws the sprite `memory[base..base + n]` at `(vx, vy)` and says whether
/// a lit pixel was turned off.
pub(crate) fn draw_sprite(
    vram: &mut [[bool; 64]; 32],
    memory: &[u8; 4096],
    base: usize,
    n: usize,
    vx: u8,
    vy: u8,
) -> (collision: bool)
    requires
        n <= 15,
        base + n <= 4096,
    ensures
        grid(*final(vram)) == draw(
            grid(*old(vram)),
            memory@.subrange(base as int, base + n),
            vx as int,
            vy as int,
        ),
        collision == collides(
            grid(*old(vram)),
            memory@.subrange(base as int, base + n),
            vx as int,
            vy as int,
        ),
{
    let ghost before: Seq<Seq<bool>> = grid(*vram);
    let ghost sprite: Seq<u8> = memory@.subrange(base as int, base + n);
    let mut collision: bool = false;
    let mut r: usize = 0;
    while r < n
        invariant
            r <= n <= 15,
            base + n <= 4096,
            sprite == memory@.subrange(base as int, base + n),
            before == grid(*old(vram)),
            collision == collides_before(before, sprite, vx as int, vy as int, r as int, 0),
            forall|col: int, row: int|
                0 <= col < 64 && 0 <= row < 32 ==> #[trigger] vram@[row]@[col] == (
                before[row][col] != hits_before(sprite, vx as int, vy as int, col, row, r as int, 0)),
        decreases n - r,
    {
        let row: usize = (vy as usize + r) % 32;
        let byte: u8 = memory[base + r];
        let mut b: u8 = 0;
        while b < 8
            invariant
                b <= 8,
                r < n <= 15,
                base + n <= 4096,
                row == (vy + r) % 32,
                byte == sprite[r as int],
                sprite == memory@.subrange(base as int, base + n),
                before == grid(*old(vram)),
                collision == collides_before(
                    before,
                    sprite,
                    vx as int,
                    vy as int,
                    r as int,
                    b as int,
                ),
                forall|col: int, row: int|
                    0 <= col < 64 && 0 <= row < 32 ==> #[trigger] vram@[row]@[col] == (
                    before[row][col] != hits_before(
                        sprite,
                        vx as int,
                        vy as int,
                        col,
                        row,
                        r as int,
                        b as int,
                    )),
            decreases 8 - b,
        {
            let col: usize = (vx as usize + b as usize) % 64;
            proof {
                lemma_draw_pixel(before, sprite, vx as int, vy as int, r as int, b as int);
            }
            if sprite_bit_at(byte, b) {
                let lit: bool = vram[row][col];
                if lit {
                    collision = true;
                }
                vram[row][col] = !lit;
            }
            b += 1;
        }
        proof {
            assert forall|col: int, row: int| 0 <= col < 64 && 0 <= row < 32 implies hits_before(
                sprite,
                vx as int,
                vy as int,
                col,
                row,
                r as int,
                8,
            ) == hits_before(sprite, vx as int, vy as int, col, row, r + 1, 0) by {}
            assert(collides_before(before, sprite, vx as int, vy as int, r as int, 8)
                == collides_before(before, sprite, vx as int, vy as int, r + 1, 0));
        }
        r += 1;
    }
    proof {
        assert forall|col: int, row: int| 0 <= col < 64 && 0 <= row < 32 implies hits_before(
            sprite,
            vx as int,
            vy as int,
            col,
            row,
            n as int,
            0,
        ) == sprite_hits(sprite, vx as int, vy as int, col, row) by {}
        assert(collides_before(before, sprite, vx as int, vy as int, n as int, 0) == collides(
            before,
            sprite,
            vx as int,
            vy as int,
        ));
        assert(grid(*vram) =~~= draw(before, sprite, vx as int, vy as int));
    }
    collision
}

/// Bit `bit` of a sprite row, counted from the left.
fn sprite_bit_at(byte: u8, bit: u8) -> (lit: bool)
    requires
        bit < 8,
    ensures
        lit == sprite_bit(byte, bit as int),
{
    let shift: u8 = 7 - bit;
    assert(shift == 0 ==> (byte >> shift) & 1 == byte % 2) by (bit_vector);
    assert(shift == 1 ==> (byte >> shift) & 1 == (byte / 2) % 2) by (bit_vector);
    assert(shift == 2 ==> (byte >> shift) & 1 == (byte / 4) % 2) by (bit_vector);
    assert(shift == 3 ==> (byte >> shift) & 1 == (byte / 8) % 2) by (bit_vector);
    assert(shift == 4 ==> (byte >> shift) & 1 == (byte / 16) % 2) by (bit_vector);
    assert(shift == 5 ==> (byte >> shift) & 1 == (byte / 32) % 2) by (bit_vector);
    assert(shift == 6 ==> (byte >> shift) & 1 == (byte / 64) % 2) by (bit_vector);
    assert(shift == 7 ==> (byte >> shift) & 1 == (byte / 128) % 2) by (bit_vector);
    (byte >> shift) & 1 == 1
}

/// Whether the sprite pixel `dx` columns right of and `dy` rows below the
/// sprite's corner comes before row `r`, bit `b` in drawing order.
spec fn drawn(dy: int, dx: int, r: int, b: int) -> bool {
    dy < r || (dy == r && dx < b)
}

/// Whether the sprite hits `(col, row)` with a pixel drawn before row `r`,
/// bit `b`.
spec fn hits_before(sprite: Seq<u8>, vx: int, vy: int, col: int, row: int, r: int, b: int) -> bool {
    sprite_hits(sprite, vx, vy, col, row) && drawn((row - vy) % 32, (col - vx) % 64, r, b)
}

/// Whether a pixel drawn before row `r`, bit `b` turned a lit pixel off.
spec fn collides_before(
    display: Seq<Seq<bool>>,
    sprite: Seq<u8>,
    vx: int,
    vy: int,
    r: int,
    b: int,
) -> bool {
    exists|col: int, row: int|
        0 <= col < 64 && 0 <= row < 32 && #[trigger] display[row][col] && hits_before(
            sprite,
            vx,
            vy,
            col,
            row,
            r,
            b,
        )
}

/// Drawing one more sprite pixel adds exactly that pixel to what is drawn.
proof fn lemma_draw_pixel(display: Seq<Seq<bool>>, sprite: Seq<u8>, vx: int, vy: int, r: int, b: int)
    requires
        0 <= vx < 256,
        0 <= vy < 256,
        0 <= r < sprite.len() <= 15,
        0 <= b < 8,
    ensures
        !hits_before(sprite, vx, vy, (vx + b) % 64, (vy + r) % 32, r, b),
        forall|col: int, row: int|
            0 <= col < 64 && 0 <= row < 32 ==> (#[trigger] hits_before(
                sprite,
                vx,
                vy,
                col,
                row,
                r,
                b + 1,
            ) <==> hits_before(sprite, vx, vy, col, row, r, b) || (col == (vx + b) % 64 && row == (vy
                + r) % 32 && sprite_bit(sprite[r], b))),
        collides_before(display, sprite, vx, vy, r, b + 1) <==> collides_before(
            display,
            sprite,
            vx,
            vy,
            r,
            b,
        ) || (display[(vy + r) % 32][(vx + b) % 64] && sprite_bit(sprite[r], b)),
{
    let c: int = (vx + b) % 64;
    let w: int = (vy + r) % 32;
    assert((c - vx) % 64 == b);
    assert((w - vy) % 32 == r);
    assert forall|col: int, row: int| 0 <= col < 64 && 0 <= row < 32 implies (#[trigger] hits_before(
        sprite,
        vx,
        vy,
        col,
        row,
        r,
        b + 1,
    ) <==> hits_before(sprite, vx, vy, col, row, r, b) || (col == c && row == w && sprite_bit(
        sprite[r],
        b,
    ))) by {
        if (col - vx) % 64 == b && (row - vy) % 32 == r {
            assert(col == c);
            assert(row == w);
        }
    }
    if collides_before(display, sprite, vx, vy, r, b + 1) {
        let (col, row) = choose|col: int, row: int|
            0 <= col < 64 && 0 <= row < 32 && #[trigger] display[row][col] && hits_before(
                sprite,
                vx,
                vy,
                col,
                row,
                r,
                b + 1,
            );
        if !(col == c && row == w) {
            assert(display[row][col] && hits_before(sprite, vx, vy, col, row, r, b));
        }
    }
    if collides_before(display, sprite, vx, vy, r, b) {
        let (col, row) = choose|col: int, row: int|
            0 <= col < 64 && 0 <= row < 32 && #[trigger] display[row][col] && hits_before(
                sprite,
                vx,
                vy,
                col,
                row,
                r,
                b,
            );
        assert(display[row][col] && hits_before(sprite, vx, vy, col, row, r, b + 1));
    }
    if display[w][c] && sprite_bit(sprite[r], b) {
        assert(display[w][c] && hits_before(sprite, vx, vy, c, w, r, b + 1));
    }
}

} // verus!
