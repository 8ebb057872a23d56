//! The monochrome framebuffer and sprite drawing.

use vstd::prelude::*;

verus! {

/// Pixels per framebuffer row.
pub const DISPLAY_WIDTH: usize = 64;

/// Rows in the framebuffer.
pub const DISPLAY_HEIGHT: usize = 32;

/// Pixels in the framebuffer.
pub const PIXEL_COUNT: usize = 2048;

/// A 64x32 grid of one-bit pixels, stored row by row. As a sequence, pixel
/// `(col, row)` is element `row * 64 + col`.
#[derive(Clone, Debug)]
pub struct Framebuffer {
    pixels: Vec<bool>,
}

impl View for Framebuffer {
    type V = Seq<bool>;

    closed spec fn view(&self) -> Seq<bool> {
        self.pixels@
    }
}

/// The framebuffer with every pixel off.
pub open spec fn blank() -> Seq<bool> {
    Seq::new(PIXEL_COUNT as nat, |i: int| false)
}

/// Whether bit `k` of a sprite row is set, counting from the leftmost
/// (most significant) bit.
pub open spec fn sprite_bit(row: u8, k: u8) -> bool {
    row & (0x80u8 >> k) != 0
}

/// Whether a sprite whose top-left corner is at `(x0, y0)` has a set bit
/// over the position `(col, row)`.
pub open spec fn covers(sprite: Seq<u8>, x0: int, y0: int, col: int, row: int) -> bool {
    &&& x0 <= col < x0 + 8
    &&& y0 <= row < y0 + sprite.len()
    &&& sprite_bit(sprite[row - y0], (col - x0) as u8)
}

/// Whether drawing `sprite` at the coordinates `(vx, vy)` toggles pixel `i`.
/// Only the starting position wraps; a position outside the grid is no
/// pixel, so what falls past the right or bottom edge is clipped.
pub open spec fn toggles(sprite: Seq<u8>, vx: u8, vy: u8, i: int) -> bool {
    covers(sprite, (vx % 64) as int, (vy % 32) as int, i % 64, i / 64)
}

/// The pixels after `sprite` has been XOR-drawn at `(vx, vy)`.
pub open spec fn drawn(pixels: Seq<bool>, sprite: Seq<u8>, vx: u8, vy: u8) -> Seq<bool> {
    Seq::new(pixels.len(), |i: int| pixels[i] != toggles(sprite, vx, vy, i))
}

/// Whether drawing `sprite` at `(vx, vy)` turns a lit pixel off.
pub open spec fn collides(pixels: Seq<bool>, sprite: Seq<u8>, vx: u8, vy: u8) -> bool {
    exists|i: int| 0 <= i < pixels.len() && #[trigger] pixels[i] && toggles(sprite, vx, vy, i)
}

impl Framebuffer {
    /// The grid has its full size.
    pub open spec fn wf(&self) -> bool {
        self@.len() == PIXEL_COUNT
    }

    /// A framebuffer with every pixel off.
    pub fn new() -> (fb: Framebuffer)
        ensures
            fb.wf(),
            fb@ == blank(),
    {
        let mut pixels: Vec<bool> = Vec::new();
        let mut i: usize = 0;
        while i < PIXEL_COUNT
            invariant
                i <= PIXEL_COUNT,
                pixels@.len() == i,
                forall|j: int| 0 <= j < i ==> !pixels@[j],
            decreases PIXEL_COUNT - i,
        {
            pixels.push(false);
            i += 1;
        }
        Framebuffer { pixels }
    }

    /// Turns every pixel off.
    pub fn clear(&mut self)
        requires
            old(self).wf(),
        ensures
            final(self).wf(),
            final(self)@ == blank(),
    {
        let mut i: usize = 0;
        while i < PIXEL_COUNT
            invariant
                i <= PIXEL_COUNT,
                self.pixels@.len() == PIXEL_COUNT,
                forall|j: int| 0 <= j < i ==> !self.pixels@[j],
            decreases PIXEL_COUNT - i,
        {
            self.pixels[i] = false;
            i += 1;
        }
    }

    /// The pixel in column `col` of row `row`, or `None` outside the grid.
    pub fn pixel(&self, col: usize, row: usize) -> (p: Option<bool>)
        requires
            self.wf(),
        ensures
            p == if col < DISPLAY_WIDTH && row < DISPLAY_HEIGHT {
                Some(self@[row * 64 + col])
            } else {
                None
            },
    {
        if col < DISPLAY_WIDTH && row < DISPLAY_HEIGHT {
            Some(self.pixels[row * DISPLAY_WIDTH + col])
        } else {
            None
        }
    }

    /// XOR-draws `sprite`, one byte per row and the leftmost pixel in the
    /// most significant bit, with its top-left corner at
    /// `(vx mod 64, vy mod 32)`. Returns whether a lit pixel was turned off.
    pub fn draw_sprite(&mut self, vx: u8, vy: u8, sprite: &[u8]) -> (collision: bool)
        requires
            old(self).wf(),
        ensures
            final(self).wf(),
            final(self)@ == drawn(old(self)@, sprite@, vx, vy),
            collision == collides(old(self)@, sprite@, vx, vy),
    {
        let x0: usize = (vx % 64) as usize;
        let y0: usize = (vy % 32) as usize;
        let ghost orig = self.pixels@;
        let ghost target = drawn(orig, sprite@, vx, vy);
        let mut collision = false;
        let mut n: usize = 0;
        while n < DISPLAY_HEIGHT - y0 && n < sprite.len()
            invariant
                x0 == vx % 64,
                y0 == vy % 32,
                n <= DISPLAY_HEIGHT - y0,
                n <= sprite@.len(),
                orig.len() == PIXEL_COUNT,
                self.pixels@.len() == PIXEL_COUNT,
                target == drawn(orig, sprite@, vx, vy),
                forall|i: int|
                    0 <= i < PIXEL_COUNT ==> #[trigger] self.pixels@[i] == (if i / 64 < y0 + n {
                        target[i]
                    } else {
                        orig[i]
                    }),
                collision ==> collides(orig, sprite@, vx, vy),
                !collision ==> forall|i: int|
                    0 <= i < PIXEL_COUNT && i / 64 < y0 + n ==> !(#[trigger] orig[i] && toggles(
                        sprite@,
                        vx,
                        vy,
                        i,
                    )),
            decreases sprite@.len() - n,
        {
            let row: u8 = sprite[n];
            let mut k: usize = 0;
            while k < 8 && k < DISPLAY_WIDTH - x0
                invariant
                    x0 == vx % 64,
                    y0 == vy % 32,
                    n < DISPLAY_HEIGHT - y0,
                    n < sprite@.len(),
                    row == sprite@[n as int],
                    k <= 8,
                    k <= DISPLAY_WIDTH - x0,
                    orig.len() == PIXEL_COUNT,
                    self.pixels@.len() == PIXEL_COUNT,
                    target == drawn(orig, sprite@, vx, vy),
                    forall|i: int|
                        0 <= i < PIXEL_COUNT ==> #[trigger] self.pixels@[i] == (if i / 64 < y0 + n
                            || (i / 64 == y0 + n && i % 64 < x0 + k) {
                            target[i]
                        } else {
                            orig[i]
                        }),
                    collision ==> collides(orig, sprite@, vx, vy),
                    !collision ==> forall|i: int|
                        0 <= i < PIXEL_COUNT && (i / 64 < y0 + n || (i / 64 == y0 + n && i % 64 < x0
                            + k)) ==> !(#[trigger] orig[i] && toggles(sprite@, vx, vy, i)),
                decreases 8 - k,
            {
                let at: usize = (y0 + n) * DISPLAY_WIDTH + x0 + k;
                assert(at as int / 64 == y0 + n && at as int % 64 == x0 + k);
                assert(toggles(sprite@, vx, vy, at as int) == sprite_bit(row, k as u8));
                if row & (0x80u8 >> k) != 0 {
                    if self.pixels[at] {
                        assert(orig[at as int]);
                        collision = true;
                        self.pixels[at] = false;
                    } else {
                        self.pixels[at] = true;
                    }
                }
                k += 1;
            }
            n += 1;
        }
        proof {
            assert forall|i: int| 0 <= i < PIXEL_COUNT implies #[trigger] self.pixels@[i]
                == target[i] by {
                if i / 64 >= y0 + n {
                    assert(!toggles(sprite@, vx, vy, i));
                }
            }
            assert(self.pixels@ =~= target);
            if !collision {
                assert forall|i: int| 0 <= i < PIXEL_COUNT && #[trigger] orig[i] implies !toggles(
                    sprite@,
                    vx,
                    vy,
                    i,
                ) by {
                    if i / 64 >= y0 + n {
                        assert(!toggles(sprite@, vx, vy, i));
                    }
                }
            }
        }
        collision
    }
}

/// Drawing the same sprite twice at the same position restores every pixel,
/// and the second drawing reports a collision exactly when the first one
/// lit a pixel, that is when the sprite toggles a pixel that was off.
pub proof fn redraw_restores(pixels: Seq<bool>, sprite: Seq<u8>, vx: u8, vy: u8)
    ensures
        drawn(drawn(pixels, sprite, vx, vy), sprite, vx, vy) == pixels,
        collides(drawn(pixels, sprite, vx, vy), sprite, vx, vy) <==> exists|i: int|
            0 <= i < pixels.len() && !#[trigger] pixels[i] && toggles(sprite, vx, vy, i),
{
    let once = drawn(pixels, sprite, vx, vy);
    assert(drawn(once, sprite, vx, vy) =~= pixels);
    if collides(once, sprite, vx, vy) {
        let i = choose|i: int| 0 <= i < once.len() && #[trigger] once[i] && toggles(sprite, vx, vy, i);
        assert(!pixels[i]);
    }
    if exists|i: int| 0 <= i < pixels.len() && !#[trigger] pixels[i] && toggles(sprite, vx, vy, i) {
        let i = choose|i: int|
            0 <= i < pixels.len() && !#[trigger] pixels[i] && toggles(sprite, vx, vy, i);
        assert(once[i]);
    }
}

/// Drawing never wraps around an edge: a pixel to the left of or above the
/// sprite's starting position, or more than seven columns to its right, or
/// below its last row, keeps its value.
pub proof fn draw_is_clipped(pixels: Seq<bool>, sprite: Seq<u8>, vx: u8, vy: u8, i: int)
    requires
        0 <= i < pixels.len(),
        i % 64 < vx % 64 || i % 64 >= vx % 64 + 8 || i / 64 < vy % 32 || i / 64 >= vy % 32
            + sprite.len(),
    ensures
        drawn(pixels, sprite, vx, vy)[i] == pixels[i],
{
}

} // verus!
