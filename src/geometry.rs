use vstd::prelude::*;

verus! {

/// One scene unit in the fixed-point scale used by every length.
pub const UNIT: i64 = 1_000_000;

/// Whether `v` lies in the closed span `[lo, lo + len]`.
pub open spec fn in_span(v: int, lo: int, len: int) -> bool {
    lo <= v && v <= lo + len
}

/// Where one axis of a span of length `len` starting at `v` goes when it is
/// clamped into the parent span `[plo, plo + plen]`.
pub open spec fn clamp_axis(v: int, len: int, plo: int, plen: int) -> int {
    if v < plo {
        plo
    } else if v + len >= plo + plen {
        plo + plen - len
    } else {
        v
    }
}

/// An axis-aligned rectangle in micro-units.
#[derive(Debug, Clone, Copy, PartialEq, Eq, Structural)]
pub struct Rectangle {
    pub x: i64,
    pub y: i64,
    pub w: i64,
    pub h: i64,
}

impl Rectangle {
    /// Width and height are not negative.
    pub open spec fn wf(self) -> bool {
        self.w >= 0 && self.h >= 0
    }

    /// All four corners of `inner` lie within `self`, bounds included.
    pub open spec fn contains_spec(self, inner: Rectangle) -> bool {
        &&& in_span(inner.x as int, self.x as int, self.w as int)
        &&& in_span(inner.x + inner.w, self.x as int, self.w as int)
        &&& in_span(inner.y as int, self.y as int, self.h as int)
        &&& in_span(inner.y + inner.h, self.y as int, self.h as int)
    }

    /// Whether `self` is no larger than `parent` on either axis.
    pub open spec fn fits_in(self, parent: Rectangle) -> bool {
        self.w <= parent.w && self.h <= parent.h
    }

    /// `self` moved by the least amount on each axis that puts it inside `parent`.
    pub open spec fn moved_inside(self, parent: Rectangle) -> Rectangle {
        Rectangle {
            x: clamp_axis(self.x as int, self.w as int, parent.x as int, parent.w as int) as i64,
            y: clamp_axis(self.y as int, self.h as int, parent.y as int, parent.h as int) as i64,
            w: self.w,
            h: self.h,
        }
    }

    /// The rectangle at `(x, y)`, `w` wide and `h` high, for integer values
    /// that fit.
    pub open spec fn new_spec(x: int, y: int, w: int, h: int) -> Rectangle {
        Rectangle { x: x as i64, y: y as i64, w: w as i64, h: h as i64 }
    }

    pub fn new(x: i64, y: i64, w: i64, h: i64) -> (r: Rectangle)
        ensures
            r == (Rectangle { x, y, w, h }),
    {
        Rectangle { x, y, w, h }
    }

    /// Whether every corner of `rect` lies inside `self`, bounds included.
    pub fn contains(&self, rect: Rectangle) -> (r: bool)
        ensures
            r == self.contains_spec(rect),
    {
        let x_min = rect.x as i128;
        let x_max = x_min + rect.w as i128;
        let y_min = rect.y as i128;
        let y_max = y_min + rect.h as i128;
        let left = self.x as i128;
        let right = left + self.w as i128;
        let top = self.y as i128;
        let bottom = top + self.h as i128;
        x_min >= left && x_min <= right && x_max >= left && x_max <= right && y_min >= top
            && y_min <= bottom && y_max >= top && y_max <= bottom
    }

    /// Clamps `self` into `parent` axis by axis, keeping its size; `None` when
    /// it is wider or taller than `parent`.
    pub fn move_inside(self, parent: Rectangle) -> (r: Option<Rectangle>)
        requires
            self.wf(),
            parent.wf(),
        ensures
            r is None <==> !self.fits_in(parent),
            r is Some ==> r->0 == self.moved_inside(parent),
            r is Some ==> parent.contains_spec(r->0),
    {
        if self.w > parent.w || self.h > parent.h {
            return None;
        }
        let x = if self.x < parent.x {
            parent.x
        } else if self.x as i128 + self.w as i128 >= parent.x as i128 + parent.w as i128 {
            parent.x + (parent.w - self.w)
        } else {
            self.x
        };
        let y = if self.y < parent.y {
            parent.y
        } else if self.y as i128 + self.h as i128 >= parent.y as i128 + parent.h as i128 {
            parent.y + (parent.h - self.h)
        } else {
            self.y
        };
        Some(Rectangle { x, y, w: self.w, h: self.h })
    }
}

/// Moving a rectangle inside a parent it fits in always yields a rectangle the
/// parent contains, and moving one that does not fit yields nothing.
pub proof fn lemma_move_inside_contained(r: Rectangle, p: Rectangle)
    requires
        r.wf(),
        p.wf(),
    ensures
        r.fits_in(p) ==> p.contains_spec(r.moved_inside(p)),
        r.fits_in(p) ==> r.moved_inside(p).w == r.w && r.moved_inside(p).h == r.h,
{
}

} // verus!
