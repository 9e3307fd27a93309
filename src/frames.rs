use vstd::prelude::*;

verus! {

/// The nine animation frames of the ship: vertical motion (up, level, down)
/// by horizontal motion (none, forward, backward).
#[derive(Debug, Clone, Copy, PartialEq, Eq, Structural)]
pub enum ShipFrame {
    UpNorm,
    UpFast,
    UpSlow,
    MidNorm,
    MidFast,
    MidSlow,
    DownNorm,
    DownFast,
    DownSlow,
}

/// -1, 0 or 1 as `v` is negative, zero or positive.
pub open spec fn sign(v: int) -> int {
    if v < 0 {
        -1
    } else if v == 0 {
        0
    } else {
        1
    }
}

/// Whether `s` is one of -1, 0 and 1.
pub open spec fn is_sign(s: int) -> bool {
    -1 <= s <= 1
}

/// The frame shown for horizontal motion of sign `sx` and vertical motion
/// of sign `sy` (negative is up).
pub open spec fn frame_of(sx: int, sy: int) -> ShipFrame {
    if sy < 0 {
        if sx == 0 {
            ShipFrame::UpNorm
        } else if sx > 0 {
            ShipFrame::UpFast
        } else {
            ShipFrame::UpSlow
        }
    } else if sy == 0 {
        if sx == 0 {
            ShipFrame::MidNorm
        } else if sx > 0 {
            ShipFrame::MidFast
        } else {
            ShipFrame::MidSlow
        }
    } else {
        if sx == 0 {
            ShipFrame::DownNorm
        } else if sx > 0 {
            ShipFrame::DownFast
        } else {
            ShipFrame::DownSlow
        }
    }
}

impl ShipFrame {
    /// The sign of horizontal motion this frame shows.
    pub open spec fn x_sign(self) -> int {
        match self {
            ShipFrame::UpNorm | ShipFrame::MidNorm | ShipFrame::DownNorm => 0,
            ShipFrame::UpFast | ShipFrame::MidFast | ShipFrame::DownFast => 1,
            ShipFrame::UpSlow | ShipFrame::MidSlow | ShipFrame::DownSlow => -1,
        }
    }

    /// The sign of vertical motion this frame shows.
    pub open spec fn y_sign(self) -> int {
        match self {
            ShipFrame::UpNorm | ShipFrame::UpFast | ShipFrame::UpSlow => -1,
            ShipFrame::MidNorm | ShipFrame::MidFast | ShipFrame::MidSlow => 0,
            ShipFrame::DownNorm | ShipFrame::DownFast | ShipFrame::DownSlow => 1,
        }
    }

    /// Position of this frame's cell in the atlas, row by row.
    pub open spec fn index_spec(self) -> int {
        match self {
            ShipFrame::UpNorm => 0,
            ShipFrame::UpFast => 1,
            ShipFrame::UpSlow => 2,
            ShipFrame::MidNorm => 3,
            ShipFrame::MidFast => 4,
            ShipFrame::MidSlow => 5,
            ShipFrame::DownNorm => 6,
            ShipFrame::DownFast => 7,
            ShipFrame::DownSlow => 8,
        }
    }

    pub fn index(&self) -> (r: usize)
        ensures
            r == self.index_spec(),
            r < 9,
    {
        match self {
            ShipFrame::UpNorm => 0,
            ShipFrame::UpFast => 1,
            ShipFrame::UpSlow => 2,
            ShipFrame::MidNorm => 3,
            ShipFrame::MidFast => 4,
            ShipFrame::MidSlow => 5,
            ShipFrame::DownNorm => 6,
            ShipFrame::DownFast => 7,
            ShipFrame::DownSlow => 8,
        }
    }

    /// The frame for a move by `dx` across and `dy` down.
    pub fn select(dx: i64, dy: i64) -> (r: ShipFrame)
        ensures
            r == frame_of(sign(dx as int), sign(dy as int)),
    {
        if dy < 0 {
            if dx == 0 {
                ShipFrame::UpNorm
            } else if dx > 0 {
                ShipFrame::UpFast
            } else {
                ShipFrame::UpSlow
            }
        } else if dy == 0 {
            if dx == 0 {
                ShipFrame::MidNorm
            } else if dx > 0 {
                ShipFrame::MidFast
            } else {
                ShipFrame::MidSlow
            }
        } else {
            if dx == 0 {
                ShipFrame::DownNorm
            } else if dx > 0 {
                ShipFrame::DownFast
            } else {
                ShipFrame::DownSlow
            }
        }
    }
}

/// The nine pairs of signs and the nine frames correspond one to one, and
/// no motion shows the level, idle frame. (That the frame depends on the
/// signs of the motion alone is the contract of `ShipFrame::select`.)
pub proof fn lemma_frame_bijection()
    ensures
        forall|sx: int, sy: int|
            is_sign(sx) && is_sign(sy) ==> #[trigger] frame_of(sx, sy).x_sign() == sx
                && frame_of(sx, sy).y_sign() == sy,
        forall|f: ShipFrame|
            is_sign(#[trigger] f.x_sign()) && is_sign(f.y_sign()) && frame_of(f.x_sign(), f.y_sign())
                == f,
        frame_of(0, 0) == ShipFrame::MidNorm,
{
}

} // verus!
