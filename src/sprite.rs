use vstd::prelude::*;
use crate::geometry::{Rectangle, UNIT};

verus! {

/// A read-only view onto a rectangular region of a texture. Textures are
/// owned by the caller's asset store and named here by their index in it.
#[derive(Debug, Clone, Copy, PartialEq, Eq, Structural)]
pub struct Sprite {
    pub tex: usize,
    pub src: Rectangle,
}

/// The region `rect` taken relative to the origin of `src`, in exact integers.
pub open spec fn offset_contained(src: Rectangle, rect: Rectangle) -> bool {
    src.contains_spec(
        Rectangle {
            x: (rect.x + src.x) as i64,
            y: (rect.y + src.y) as i64,
            w: rect.w,
            h: rect.h,
        },
    ) && i64::MIN <= rect.x + src.x <= i64::MAX && i64::MIN <= rect.y + src.y <= i64::MAX
}

impl Sprite {
    /// The source region is a rectangle at non-negative coordinates whose far
    /// edges are representable.
    pub open spec fn wf(self) -> bool {
        &&& self.src.wf()
        &&& self.src.x >= 0
        &&& self.src.y >= 0
        &&& self.src.x + self.src.w <= i64::MAX
        &&& self.src.y + self.src.h <= i64::MAX
    }

    /// The whole of texture `tex`, which is `width` by `height` pixels.
    pub fn new(tex: usize, width: u32, height: u32) -> (r: Sprite)
        ensures
            r.tex == tex,
            r.src == (Rectangle { x: 0, y: 0, w: (width * UNIT) as i64, h: (height * UNIT) as i64 }),
            r.src.w == width * UNIT,
            r.src.h == height * UNIT,
            r.wf(),
    {
        let w = width as i64 * UNIT;
        let h = height as i64 * UNIT;
        Sprite { tex, src: Rectangle { x: 0, y: 0, w, h } }
    }

    /// The sub-sprite at `rect`, whose position is relative to this sprite's
    /// origin; `None` when it does not lie inside this sprite.
    pub fn region(&self, rect: Rectangle) -> (r: Option<Sprite>)
        requires
            self.wf(),
        ensures
            r is Some <==> offset_contained(self.src, rect),
            r is Some ==> r->0 == (Sprite {
                tex: self.tex,
                src: Rectangle {
                    x: (rect.x + self.src.x) as i64,
                    y: (rect.y + self.src.y) as i64,
                    w: rect.w,
                    h: rect.h,
                },
            }),
            r is Some && rect.wf() ==> r->0.wf(),
    {
        let x = rect.x as i128 + self.src.x as i128;
        let y = rect.y as i128 + self.src.y as i128;
        let left = self.src.x as i128;
        let top = self.src.y as i128;
        let right = left + self.src.w as i128;
        let bottom = top + self.src.h as i128;
        if x < left || x > right || y < top || y > bottom {
            return None;
        }
        let src = Rectangle { x: x as i64, y: y as i64, w: rect.w, h: rect.h };
        if self.src.contains(src) {
            Some(Sprite { tex: self.tex, src })
        } else {
            None
        }
    }

    /// Width and height of the source region.
    pub fn size(&self) -> (r: (i64, i64))
        ensures
            r == (self.src.w, self.src.h),
    {
        (self.src.w, self.src.h)
    }
}

/// One drawing operation on the render target.
#[derive(Debug, Clone, Copy, PartialEq, Eq, Structural)]
pub enum DrawCmd {
    /// Fill the whole target with black.
    Clear,
    /// Copy the sprite's source region onto `dest`.
    Copy { sprite: Sprite, dest: Rectangle },
}

/// A render target of `width` by `height` pixels that records the drawing
/// operations issued on it, for the platform layer to carry out.
pub struct Canvas {
    pub width: u32,
    pub height: u32,
    pub cmds: Vec<DrawCmd>,
}

impl Canvas {
    pub fn new(width: u32, height: u32) -> (r: Canvas)
        ensures
            r.width == width,
            r.height == height,
            r.cmds@ == Seq::<DrawCmd>::empty(),
    {
        Canvas { width, height, cmds: Vec::new() }
    }

    /// Records a fill of the whole target.
    pub fn clear(&mut self)
        ensures
            final(self).width == old(self).width,
            final(self).height == old(self).height,
            final(self).cmds@ == old(self).cmds@.push(DrawCmd::Clear),
    {
        self.cmds.push(DrawCmd::Clear);
    }

    /// Records a copy of `sprite` onto `dest`.
    pub fn copy_sprite(&mut self, sprite: &Sprite, dest: Rectangle)
        ensures
            final(self).width == old(self).width,
            final(self).height == old(self).height,
            final(self).cmds@ == old(self).cmds@.push(DrawCmd::Copy { sprite: *sprite, dest }),
    {
        self.cmds.push(DrawCmd::Copy { sprite: *sprite, dest });
    }
}

} // verus!
