use vstd::prelude::*;
use vstd::arithmetic::div_mod::{lemma_div_is_ordered, lemma_div_plus_one};
use crate::geometry::{Rectangle, UNIT};
use crate::sprite::{Canvas, DrawCmd, Sprite};

verus! {

/// Copies of a tile `step` wide and `h` high laid side by side from `left`
/// until one starts at or past `limit`.
pub open spec fn tiles_from(left: int, step: int, limit: int, h: int) -> Seq<Rectangle>
    decreases limit + step - left,
{
    if step > 0 && left < limit {
        let rest = tiles_from(left + step, step, limit, h);
        seq![Rectangle { x: left as i64, y: 0, w: step as i64, h: h as i64 }] + rest
    } else {
        Seq::empty()
    }
}

proof fn lemma_mul_bounded(a: int, b: int, max_a: int, max_b: int)
    requires
        0 <= a <= max_a,
        0 <= b <= max_b,
    ensures
        0 <= a * b <= max_a * max_b,
{
    assert(0 <= a * b <= max_a * max_b) by (nonlinear_arith)
        requires
            0 <= a <= max_a,
            0 <= b <= max_b,
    ;
}

/// `s` covers a strip `limit` wide and `height` high from its left edge:
/// tiles of positive width laid end to end at the strip's top, the first
/// straddling the left edge and the last reaching the right edge.
pub open spec fn covers_strip(s: Seq<Rectangle>, limit: int, height: int) -> bool {
    &&& s.len() > 0
    &&& s[0].x <= 0 < s[0].x + s[0].w
    &&& s.last().x + s.last().w >= limit
    &&& forall|i: int| 0 <= i < s.len() ==> #[trigger] s[i].y == 0 && s[i].h == height && s[i].w > 0
    &&& forall|i: int| 0 <= i < s.len() - 1 ==> #[trigger] s[i + 1].x == s[i].x + s[i].w
}

/// The drawing operations that copy `sprite` onto each of `dests`.
pub open spec fn copies(sprite: Sprite, dests: Seq<Rectangle>) -> Seq<DrawCmd> {
    dests.map_values(|d: Rectangle| DrawCmd::Copy { sprite, dest: d })
}

/// A horizontally scrolling, wrapping strip of a sprite. `pos` is the scroll
/// offset in micro-units, `vel` the speed in micro-units per millisecond.
#[derive(Debug, Clone, Copy, PartialEq, Eq, Structural)]
pub struct Background {
    pos: i64,
    vel: i64,
    sprite: Sprite,
}

impl Background {
    pub closed spec fn pos_spec(self) -> int {
        self.pos as int
    }

    pub closed spec fn vel_spec(self) -> int {
        self.vel as int
    }

    pub closed spec fn sprite_spec(self) -> Sprite {
        self.sprite
    }

    /// The sprite has a positive size, the speed is not negative and the
    /// offset lies in `[0, sprite width)`.
    pub open spec fn wf(self) -> bool {
        &&& self.sprite_spec().wf()
        &&& self.sprite_spec().src.w > 0
        &&& self.sprite_spec().src.h > 0
        &&& self.vel_spec() >= 0
        &&& 0 <= self.pos_spec() < self.sprite_spec().src.w
    }

    /// The offset after `elapsed_ms` milliseconds, wrapped into the strip.
    pub open spec fn advanced_pos(self, elapsed_ms: int) -> int {
        (self.pos_spec() + self.vel_spec() * elapsed_ms) % (self.sprite_spec().src.w as int)
    }

    /// Width of one tile on a target `win_h` pixels high: the sprite scaled
    /// to fill the target's height, rounded up to a whole micro-unit so that
    /// tiles never leave a gap.
    pub open spec fn tile_width(self, win_h: int) -> int {
        (self.sprite_spec().src.w * win_h * UNIT + self.sprite_spec().src.h - 1) / (
        self.sprite_spec().src.h as int)
    }

    /// Where the first tile starts for the current offset: the scaled offset
    /// to the left of the target's edge, rounded down to a whole micro-unit.
    pub open spec fn tile_start(self, win_h: int) -> int {
        -(self.pos_spec() * win_h * UNIT / (self.sprite_spec().src.h as int))
    }

    /// The tiles that cover a target `win_w` by `win_h` pixels.
    pub open spec fn tiles_spec(self, win_w: int, win_h: int) -> Seq<Rectangle> {
        tiles_from(self.tile_start(win_h), self.tile_width(win_h), win_w * UNIT, win_h * UNIT)
    }

    /// The tile width for this target and the target's width fit together in
    /// an `i64`.
    pub open spec fn fits_target(self, win_w: int, win_h: int) -> bool {
        self.tile_width(win_h) + win_w * UNIT <= i64::MAX
    }

    /// Whether the tiles for a target `win_w` by `win_h` pixels can be
    /// computed.
    pub fn fits(&self, win_w: u32, win_h: u32) -> (r: bool)
        requires
            self.wf(),
        ensures
            r == self.fits_target(win_w as int, win_h as int),
    {
        let w = self.sprite.src.w as i128;
        let h = self.sprite.src.h as i128;
        proof {
            lemma_mul_bounded(w as int, win_h as int, i64::MAX as int, u32::MAX as int);
            lemma_mul_bounded(w * win_h, UNIT as int, i64::MAX * u32::MAX, UNIT as int);
        }
        let step = (w * win_h as i128 * UNIT as i128 + h - 1) / h;
        step + win_w as i128 * UNIT as i128 <= i64::MAX as i128
    }

    /// A strip of `sprite` at offset zero, scrolling at `vel` micro-units per
    /// millisecond.
    pub fn new(sprite: Sprite, vel: i64) -> (r: Background)
        requires
            sprite.wf(),
            sprite.src.w > 0,
            sprite.src.h > 0,
            vel >= 0,
        ensures
            r.wf(),
            r.pos_spec() == 0,
            r.vel_spec() == vel,
            r.sprite_spec() == sprite,
    {
        Background { pos: 0, vel, sprite }
    }

    pub fn pos(&self) -> (r: i64)
        ensures
            r == self.pos_spec(),
    {
        self.pos
    }

    pub fn vel(&self) -> (r: i64)
        ensures
            r == self.vel_spec(),
    {
        self.vel
    }

    pub fn sprite(&self) -> (r: Sprite)
        ensures
            r == self.sprite_spec(),
    {
        self.sprite
    }

    /// Scrolls the strip by the distance covered in `elapsed_ms` milliseconds
    /// and wraps the offset back into `[0, sprite width)`.
    pub fn advance(&mut self, elapsed_ms: u32)
        requires
            old(self).wf(),
        ensures
            final(self).wf(),
            final(self).pos_spec() == old(self).advanced_pos(elapsed_ms as int),
            final(self).vel_spec() == old(self).vel_spec(),
            final(self).sprite_spec() == old(self).sprite_spec(),
    {
        let w = self.sprite.src.w as i128;
        proof {
            lemma_mul_bounded(self.vel as int, elapsed_ms as int, i64::MAX as int, u32::MAX as int);
        }
        let moved = self.pos as i128 + self.vel as i128 * elapsed_ms as i128;
        assert(moved >= 0) by (nonlinear_arith)
            requires
                moved == self.pos as i128 + self.vel as i128 * elapsed_ms as i128,
                self.pos >= 0,
                self.vel >= 0,
        ;
        self.pos = (moved % w) as i64;
    }

    /// The destinations of the tiles that cover a target `win_w` by `win_h`
    /// pixels at the current offset, left to right. A tile is the sprite
    /// scaled to the target's height; the first starts at the scaled offset
    /// to the left of the target's edge. A target with no height gets no
    /// tiles.
    pub fn tiles(&self, win_w: u32, win_h: u32) -> (r: Vec<Rectangle>)
        requires
            self.wf(),
            self.fits_target(win_w as int, win_h as int),
        ensures
            r@ == self.tiles_spec(win_w as int, win_h as int),
            win_w > 0 && win_h > 0 ==> covers_strip(r@, win_w * UNIT, win_h * UNIT),
    {
        let w = self.sprite.src.w as i128;
        let h = self.sprite.src.h as i128;
        let win_w_u = win_w as i128 * UNIT as i128;
        let win_h_u = win_h as i128 * UNIT as i128;
        proof {
            lemma_mul_bounded(w as int, win_h as int, i64::MAX as int, u32::MAX as int);
            lemma_mul_bounded(w * win_h, UNIT as int, i64::MAX * u32::MAX, UNIT as int);
            lemma_mul_bounded(self.pos as int, win_h as int, i64::MAX as int, u32::MAX as int);
            lemma_mul_bounded(self.pos * win_h, UNIT as int, i64::MAX * u32::MAX, UNIT as int);
        }
        let step = (w * win_h as i128 * UNIT as i128 + h - 1) / h;
        let back = self.pos as i128 * win_h as i128 * UNIT as i128 / h;
        proof {
            let p = self.pos as int;
            let hh = win_h as int;
            let a = p * hh * UNIT;
            let c = (w as int) * hh * UNIT;
            assert(0 <= a <= c) by (nonlinear_arith)
                requires
                    0 <= p < w as int,
                    hh >= 0,
                    UNIT > 0,
                    a == p * hh * UNIT,
                    c == (w as int) * hh * UNIT,
            ;
            assert(hh > 0 ==> a + UNIT <= c) by (nonlinear_arith)
                requires
                    0 <= p < w as int,
                    hh >= 0,
                    UNIT > 0,
                    a == p * hh * UNIT,
                    c == (w as int) * hh * UNIT,
            ;
            assert(0 <= a / (h as int)) by (nonlinear_arith)
                requires
                    0 <= a,
                    h > 0,
            ;
            lemma_div_is_ordered(a, c + h - 1, h as int);
            if hh > 0 {
                lemma_div_plus_one(a, h as int);
                lemma_div_is_ordered(h + a, c + h - 1, h as int);
            }
        }
        let mut out: Vec<Rectangle> = Vec::new();
        if step == 0 {
            return out;
        }
        let start: i128 = -back;
        let mut left: i128 = start;
        while left < win_w_u
            invariant
                step > 0,
                step + win_w_u <= i64::MAX,
                win_h_u == win_h * UNIT,
                win_w_u == win_w * UNIT,
                -step <= start <= 0,
                win_h > 0 ==> -step < start,
                start <= left,
                left < win_w_u + step,
                out@.len() == 0 ==> left == start,
                out@.len() > 0 ==> out@[0].x == start && out@.last().x + step == left,
                forall|i: int|
                    0 <= i < out@.len() ==> #[trigger] out@[i].y == 0 && out@[i].h == win_h_u
                        && out@[i].w == step,
                forall|i: int|
                    0 <= i < out@.len() - 1 ==> #[trigger] out@[i + 1].x == out@[i].x + out@[i].w,
                out@ + tiles_from(left as int, step as int, win_w_u as int, win_h_u as int)
                    == self.tiles_spec(win_w as int, win_h as int),
            decreases win_w_u + step - left,
        {
            let tile = Rectangle { x: left as i64, y: 0, w: step as i64, h: win_h_u as i64 };
            let ghost rest = tiles_from(left + step, step as int, win_w_u as int, win_h_u as int);
            assert(tiles_from(left as int, step as int, win_w_u as int, win_h_u as int)
                == seq![tile] + rest);
            assert(out@.push(tile) + rest == out@ + (seq![tile] + rest));
            let ghost before = out@;
            out.push(tile);
            proof {
                assert forall|i: int| 0 <= i < out@.len() - 1 implies #[trigger] out@[i + 1].x
                    == out@[i].x + out@[i].w by {
                    if i + 1 < before.len() {
                        assert(out@[i + 1] == before[i + 1] && out@[i] == before[i]);
                    } else {
                        assert(i == before.len() - 1);
                        assert(out@[i] == before[i] && before[i] == before.last());
                        assert(before[i].y == 0);
                        assert(out@[i + 1] == tile);
                        assert(tile.x == left);
                    }
                }
            }
            left = left + step;
        }
        assert(out@ + Seq::<Rectangle>::empty() == out@);
        proof {
            if win_w > 0 && win_h > 0 {
                assert(out@.len() > 0);
                assert(out@[0].y == 0);
                let n = out@.len() - 1;
                assert(out@[n].y == 0);
            }
        }
        out
    }

    /// Scrolls the strip by `elapsed_ms` milliseconds, then records a copy of
    /// the sprite onto each tile that covers the canvas.
    pub fn render(&mut self, canvas: &mut Canvas, elapsed_ms: u32)
        requires
            old(self).wf(),
            old(self).fits_target(old(canvas).width as int, old(canvas).height as int),
        ensures
            final(self).wf(),
            final(self).pos_spec() == old(self).advanced_pos(elapsed_ms as int),
            final(self).vel_spec() == old(self).vel_spec(),
            final(self).sprite_spec() == old(self).sprite_spec(),
            final(canvas).width == old(canvas).width,
            final(canvas).height == old(canvas).height,
            final(canvas).cmds@ == old(canvas).cmds@ + copies(
                old(self).sprite_spec(),
                final(self).tiles_spec(old(canvas).width as int, old(canvas).height as int),
            ),
            old(canvas).width > 0 && old(canvas).height > 0 ==> covers_strip(
                final(self).tiles_spec(old(canvas).width as int, old(canvas).height as int),
                old(canvas).width * UNIT,
                old(canvas).height * UNIT,
            ),
    {
        self.advance(elapsed_ms);
        let dests = self.tiles(canvas.width, canvas.height);
        let ghost start = canvas.cmds@;
        let mut i: usize = 0;
        while i < dests.len()
            invariant
                i <= dests.len(),
                canvas.width == old(canvas).width,
                canvas.height == old(canvas).height,
                start == old(canvas).cmds@,
                canvas.cmds@ == start + copies(self.sprite, dests@.take(i as int)),
            decreases dests.len() - i,
        {
            assert(copies(self.sprite, dests@.take(i + 1)) == copies(
                self.sprite,
                dests@.take(i as int),
            ).push(DrawCmd::Copy { sprite: self.sprite, dest: dests@[i as int] }));
            canvas.copy_sprite(&self.sprite, dests[i]);
            i += 1;
        }
        assert(dests@.take(dests.len() as int) == dests@);
    }
}

} // verus!
