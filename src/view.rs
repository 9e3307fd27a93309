use vstd::prelude::*;
use crate::background::{copies, Background};
use crate::events::{Events, Key};
use crate::frames::{frame_of, sign, ShipFrame};
use crate::geometry::{Rectangle, UNIT};
use crate::scene::{Phi, ViewAction};
use crate::sprite::{offset_contained, DrawCmd, Sprite};

verus! {

/// Ship speed in micro-units per millisecond (0.32 scene units per second).
pub const PLAYER_SPEED: i64 = 320;

/// Width of one cell of the ship atlas, in micro-units.
pub const SHIP_W: i64 = 43_000_000;

/// Height of one cell of the ship atlas, in micro-units.
pub const SHIP_H: i64 = 39_000_000;

/// Scroll speed of the front layer, in micro-units per millisecond (80 scene
/// units per second).
pub const FRONT_VEL: i64 = 80_000;

/// Scroll speed of the middle layer (40 scene units per second).
pub const MIDDLE_VEL: i64 = 40_000;

/// Scroll speed of the back layer (40 scene units per second).
pub const BACK_VEL: i64 = 40_000;

/// Share of the target's width, in thousandths, that the ship may move in.
pub const BOUNDARY_PER_MILLE: i64 = 700;

/// Largest coordinate the ship keeps between frames.
pub const COORD_MAX: i64 = 9_007_199_254_740_992;

/// The player's ship: where it is, its atlas of frames, and the frame shown.
pub struct Ship {
    pub rect: Rectangle,
    pub sprites: Vec<Sprite>,
    pub current: ShipFrame,
}

/// Whether the quit signal came or escape was just pressed.
pub open spec fn quit_requested(events: Events) -> bool {
    events.now.quit || events.now.key_escape == Some(true)
}

/// Motion along one axis: none when both or neither of the opposing keys
/// are held, else `speed` towards the held one.
pub open spec fn axis_delta(neg: bool, pos: bool, speed: int) -> int {
    if neg == pos {
        0
    } else if pos {
        speed
    } else {
        -speed
    }
}

/// Distance the ship moves in `elapsed_ms` milliseconds with one key held.
pub open spec fn travel(elapsed_ms: int) -> int {
    PLAYER_SPEED * elapsed_ms
}

/// Horizontal motion for the held keys.
pub open spec fn delta_x(events: Events, elapsed_ms: int) -> int {
    axis_delta(events.held(Key::Left), events.held(Key::Right), travel(elapsed_ms))
}

/// Vertical motion for the held keys (down is positive).
pub open spec fn delta_y(events: Events, elapsed_ms: int) -> int {
    axis_delta(events.held(Key::Up), events.held(Key::Down), travel(elapsed_ms))
}

/// The region the ship may move in: the left part of a target `win_w` by
/// `win_h` pixels, at full height.
pub open spec fn boundary(win_w: int, win_h: int) -> Rectangle {
    Rectangle { x: 0, y: 0, w: (win_w * BOUNDARY_PER_MILLE * 1000) as i64, h: (win_h * UNIT) as i64 }
}

/// Cell `i` of an atlas of three by three cells in `sheet`, row by row.
pub open spec fn atlas_cell(sheet: Sprite, i: int) -> Sprite {
    Sprite {
        tex: sheet.tex,
        src: Rectangle {
            x: (sheet.src.x + SHIP_W * (i % 3)) as i64,
            y: (sheet.src.y + SHIP_H * (i / 3)) as i64,
            w: SHIP_W,
            h: SHIP_H,
        },
    }
}

/// The ship view: a player ship over three scrolling background layers, one
/// of them in front of the ship.
pub struct ShipView {
    pub player: Ship,
    pub bg_back: Background,
    pub bg_middle: Background,
    pub bg_front: Background,
}

impl ShipView {
    /// The layers are well formed, the atlas has nine frames, and the ship
    /// lies at non-negative, bounded coordinates.
    pub open spec fn wf(&self) -> bool {
        &&& self.bg_back.wf()
        &&& self.bg_middle.wf()
        &&& self.bg_front.wf()
        &&& self.player.sprites@.len() == 9
        &&& self.player.rect.wf()
        &&& 0 <= self.player.rect.x <= COORD_MAX
        &&& 0 <= self.player.rect.y <= COORD_MAX
    }

    /// The ship fits in the movement region of a target `win_w` by `win_h`
    /// pixels, and the layers can be tiled across it.
    pub open spec fn fits(&self, win_w: int, win_h: int) -> bool {
        &&& self.player.rect.fits_in(boundary(win_w, win_h))
        &&& self.bg_back.fits_target(win_w, win_h)
        &&& self.bg_middle.fits_target(win_w, win_h)
        &&& self.bg_front.fits_target(win_w, win_h)
    }

    /// Whether a frame can be drawn on a target `win_w` by `win_h` pixels.
    pub fn can_draw(&self, win_w: u32, win_h: u32) -> (r: bool)
        requires
            self.wf(),
        ensures
            r == self.fits(win_w as int, win_h as int),
    {
        let region_w = win_w as i64 * BOUNDARY_PER_MILLE * 1000;
        let region_h = win_h as i64 * UNIT;
        self.player.rect.w <= region_w && self.player.rect.h <= region_h && self.bg_back.fits(
            win_w,
            win_h,
        ) && self.bg_middle.fits(win_w, win_h) && self.bg_front.fits(win_w, win_h)
    }

    /// The ship sliced from the atlas `sheet`, at its starting place and
    /// idle, over the three layers at offset zero.
    pub fn new(sheet: Sprite, front: Sprite, middle: Sprite, back: Sprite) -> (r: ShipView)
        requires
            sheet.wf(),
            sheet.src.w >= 3 * SHIP_W,
            sheet.src.h >= 3 * SHIP_H,
            front.wf() && front.src.w > 0 && front.src.h > 0,
            middle.wf() && middle.src.w > 0 && middle.src.h > 0,
            back.wf() && back.src.w > 0 && back.src.h > 0,
        ensures
            r.wf(),
            r.player.rect == Rectangle::new_spec(64 * UNIT, 64 * UNIT, 32 * UNIT, 32 * UNIT),
            r.player.current == ShipFrame::MidNorm,
            forall|i: int| 0 <= i < 9 ==> r.player.sprites@[i] == atlas_cell(sheet, i),
            r.bg_front.pos_spec() == 0 && r.bg_front.vel_spec() == FRONT_VEL
                && r.bg_front.sprite_spec() == front,
            r.bg_middle.pos_spec() == 0 && r.bg_middle.vel_spec() == MIDDLE_VEL
                && r.bg_middle.sprite_spec() == middle,
            r.bg_back.pos_spec() == 0 && r.bg_back.vel_spec() == BACK_VEL
                && r.bg_back.sprite_spec() == back,
    {
        let mut sprites: Vec<Sprite> = Vec::with_capacity(9);
        let mut row: i64 = 0;
        while row < 3
            invariant
                0 <= row <= 3,
                sheet.wf(),
                sheet.src.w >= 3 * SHIP_W,
                sheet.src.h >= 3 * SHIP_H,
                sprites@.len() == 3 * row,
                forall|i: int| 0 <= i < sprites@.len() ==> sprites@[i] == atlas_cell(sheet, i),
            decreases 3 - row,
        {
            let mut col: i64 = 0;
            while col < 3
                invariant
                    0 <= row < 3,
                    sheet.wf(),
                    sheet.src.w >= 3 * SHIP_W,
                    sheet.src.h >= 3 * SHIP_H,
                    0 <= col <= 3,
                    sprites@.len() == 3 * row + col,
                    forall|i: int| 0 <= i < sprites@.len() ==> sprites@[i] == atlas_cell(sheet, i),
                decreases 3 - col,
            {
                let cell = Rectangle { x: SHIP_W * col, y: SHIP_H * row, w: SHIP_W, h: SHIP_H };
                assert(offset_contained(sheet.src, cell));
                let ghost n = sprites@.len() as int;
                assert(n % 3 == col && n / 3 == row);
                let part = sheet.region(cell);
                match part {
                    Some(s) => sprites.push(s),
                    // the cell lies inside the sheet, so this is never taken
                    None => {},
                }
                col += 1;
            }
            row += 1;
        }
        ShipView {
            player: Ship {
                rect: Rectangle::new(64 * UNIT, 64 * UNIT, 32 * UNIT, 32 * UNIT),
                sprites,
                current: ShipFrame::MidNorm,
            },
            bg_front: Background::new(front, FRONT_VEL),
            bg_middle: Background::new(middle, MIDDLE_VEL),
            bg_back: Background::new(back, BACK_VEL),
        }
    }

    /// Where the ship goes in a frame: moved by the held keys for
    /// `elapsed_ms`, then clamped into the movement region of a target
    /// `win_w` by `win_h` pixels.
    pub open spec fn next_rect(&self, events: Events, win_w: int, win_h: int, elapsed_ms: int) -> Rectangle {
        let r = self.player.rect;
        Rectangle {
            x: (r.x + delta_x(events, elapsed_ms)) as i64,
            y: (r.y + delta_y(events, elapsed_ms)) as i64,
            w: r.w,
            h: r.h,
        }.moved_inside(boundary(win_w, win_h))
    }

    /// What one frame does, from this view and context to `after` and
    /// `ctx_after`, with result `r`. On a quit signal or a fresh escape press
    /// it stops at once, changing and drawing nothing. Otherwise it moves the
    /// ship by the held arrow keys (opposing keys cancel; a diagonal move is
    /// not slowed down), clamps it into the left part of the target, and
    /// records: a clear, the back and middle layers, the ship's frame for the
    /// signs of its motion, and the front layer over it.
    pub open spec fn frame_done(
        self,
        after: ShipView,
        ctx: Phi,
        ctx_after: Phi,
        elapsed_ms: int,
        r: ViewAction,
    ) -> bool {
        &&& after.wf()
        &&& ctx_after.events == ctx.events
        &&& ctx_after.canvas.width == ctx.canvas.width
        &&& ctx_after.canvas.height == ctx.canvas.height
        &&& quit_requested(ctx.events) ==> {
            &&& r == ViewAction::Quit
            &&& after == self
            &&& ctx_after.canvas.cmds@ == ctx.canvas.cmds@
        }
        &&& !quit_requested(ctx.events) ==> {
            let ev = ctx.events;
            let (w, h) = (ctx.canvas.width as int, ctx.canvas.height as int);
            let dx = delta_x(ev, elapsed_ms);
            let dy = delta_y(ev, elapsed_ms);
            &&& r == ViewAction::Continue
            &&& after.player.rect == self.next_rect(ev, w, h, elapsed_ms)
            &&& after.player.current == frame_of(sign(dx), sign(dy))
            &&& after.player.sprites@ == self.player.sprites@
            &&& after.bg_back.pos_spec() == self.bg_back.advanced_pos(elapsed_ms)
            &&& after.bg_middle.pos_spec() == self.bg_middle.advanced_pos(elapsed_ms)
            &&& after.bg_front.pos_spec() == self.bg_front.advanced_pos(elapsed_ms)
            &&& after.bg_back.vel_spec() == self.bg_back.vel_spec()
            &&& after.bg_middle.vel_spec() == self.bg_middle.vel_spec()
            &&& after.bg_front.vel_spec() == self.bg_front.vel_spec()
            &&& after.bg_back.sprite_spec() == self.bg_back.sprite_spec()
            &&& after.bg_middle.sprite_spec() == self.bg_middle.sprite_spec()
            &&& after.bg_front.sprite_spec() == self.bg_front.sprite_spec()
            &&& ctx_after.canvas.cmds@ == ctx.canvas.cmds@.push(DrawCmd::Clear)
                + copies(after.bg_back.sprite_spec(), after.bg_back.tiles_spec(w, h))
                + copies(after.bg_middle.sprite_spec(), after.bg_middle.tiles_spec(w, h))
                + seq![DrawCmd::Copy {
                    sprite: after.player.sprites@[after.player.current.index_spec()],
                    dest: after.player.rect,
                }]
                + copies(after.bg_front.sprite_spec(), after.bg_front.tiles_spec(w, h))
        }
    }

    /// One frame, `elapsed_ms` milliseconds after the previous one, as
    /// `frame_done` states it.
    pub fn frame(&mut self, context: &mut Phi, elapsed_ms: u32) -> (r: ViewAction)
        requires
            old(self).wf(),
            old(self).fits(old(context).canvas.width as int, old(context).canvas.height as int),
        ensures
            old(self).frame_done(*final(self), *old(context), *final(context), elapsed_ms as int, r),
    {
        let events = context.events;
        if events.now.quit || events.now.key_escape == Some(true) {
            return ViewAction::Quit;
        }
        let win_w = context.canvas.width;
        let win_h = context.canvas.height;
        let travel = PLAYER_SPEED * elapsed_ms as i64;
        let left = events.is_held(Key::Left);
        let right = events.is_held(Key::Right);
        let up = events.is_held(Key::Up);
        let down = events.is_held(Key::Down);
        let dx: i64 = if left == right {
            0
        } else if right {
            travel
        } else {
            -travel
        };
        let dy: i64 = if up == down {
            0
        } else if down {
            travel
        } else {
            -travel
        };
        let moved = Rectangle {
            x: self.player.rect.x + dx,
            y: self.player.rect.y + dy,
            w: self.player.rect.w,
            h: self.player.rect.h,
        };
        let region = Rectangle {
            x: 0,
            y: 0,
            w: win_w as i64 * BOUNDARY_PER_MILLE * 1000,
            h: win_h as i64 * UNIT,
        };
        match moved.move_inside(region) {
            Some(r) => self.player.rect = r,
            // the ship fits in the region, so this is never taken
            None => {},
        }
        let ghost start = context.canvas.cmds@;
        context.canvas.clear();
        self.bg_back.render(&mut context.canvas, elapsed_ms);
        let ghost after_back = context.canvas.cmds@;
        self.bg_middle.render(&mut context.canvas, elapsed_ms);
        let ghost after_middle = context.canvas.cmds@;
        self.player.current = ShipFrame::select(dx, dy);
        let sprite = self.player.sprites[self.player.current.index()];
        context.canvas.copy_sprite(&sprite, self.player.rect);
        let ghost after_ship = context.canvas.cmds@;
        self.bg_front.render(&mut context.canvas, elapsed_ms);
        proof {
            let (w, h) = (win_w as int, win_h as int);
            let a = copies(self.bg_back.sprite_spec(), self.bg_back.tiles_spec(w, h));
            let b = copies(self.bg_middle.sprite_spec(), self.bg_middle.tiles_spec(w, h));
            let c = seq![DrawCmd::Copy { sprite, dest: self.player.rect }];
            let d = copies(self.bg_front.sprite_spec(), self.bg_front.tiles_spec(w, h));
            assert(context.canvas.cmds@ =~= start.push(DrawCmd::Clear) + a + b + c + d);
        }
        ViewAction::Continue
    }
}

impl crate::scene::View for ShipView {
    open spec fn ready(&self, context: &Phi) -> bool {
        self.wf() && self.fits(context.canvas.width as int, context.canvas.height as int)
    }

    fn render(&mut self, context: &mut Phi, elapsed_ms: u32) -> (r: ViewAction)
        ensures
            old(self).frame_done(*final(self), *old(context), *final(context), elapsed_ms as int, r),
    {
        self.frame(context, elapsed_ms)
    }
}

} // verus!
