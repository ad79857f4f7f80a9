//! The rectangle of the plane on screen, how a pixel maps into it, and how
//! the viewer moves it.
use vstd::prelude::*;
use crate::fixed::{in_plane, LIMIT};

verus! {

/// Half the side of the opening view, 2.5, in fixed point.
pub const START_HALF_SIDE: i128 = 180143985094819840;

/// A rectangle of the plane, in fixed point: the real axis runs from `min_x`
/// to `max_x` left to right, the imaginary axis from `min_y` to `max_y` top to bottom.
#[derive(Clone, Copy, Debug, PartialEq, Eq)]
pub struct Viewport {
    pub min_x: i128,
    pub max_x: i128,
    pub min_y: i128,
    pub max_y: i128,
}

/// A move of the view.
#[derive(Clone, Copy, Debug, PartialEq, Eq)]
pub enum Command {
    /// Shrink each side by two fifths, keeping the center.
    ZoomIn,
    /// Grow each side by two fifths, keeping the center.
    ZoomOut,
    /// Shift by a fifth of the width toward smaller real parts.
    Left,
    /// Shift by a fifth of the width toward larger real parts.
    Right,
    /// Shift by a fifth of the height toward smaller imaginary parts.
    Up,
    /// Shift by a fifth of the height toward larger imaginary parts.
    Down,
}

/// The point of a span of width `span` starting at `lo` that pixel `i` of `n` maps to.
pub open spec fn pixel_coord(lo: int, span: int, i: int, n: int) -> int {
    lo + i * span / n
}

impl Viewport {
    /// Both axes lie within the plane the library handles, each with a positive extent.
    pub open spec fn wf(&self) -> bool {
        &&& in_plane(self.min_x as int)
        &&& in_plane(self.max_x as int)
        &&& in_plane(self.min_y as int)
        &&& in_plane(self.max_y as int)
        &&& self.min_x < self.max_x
        &&& self.min_y < self.max_y
    }

    /// Real part of the point that column `x` of a grid `width` wide shows.
    pub open spec fn pixel_re(&self, x: int, width: int) -> int {
        pixel_coord(self.min_x as int, self.max_x - self.min_x, x, width)
    }

    /// Imaginary part of the point that row `y` of a grid `height` high shows.
    pub open spec fn pixel_im(&self, y: int, height: int) -> int {
        pixel_coord(self.min_y as int, self.max_y - self.min_y, y, height)
    }

    /// The opening view: the square from -2.5 to 2.5 on both axes.
    pub open spec fn start() -> Viewport {
        Viewport {
            min_x: (-START_HALF_SIDE) as i128,
            max_x: START_HALF_SIDE,
            min_y: (-START_HALF_SIDE) as i128,
            max_y: START_HALF_SIDE,
        }
    }

    /// The view that `cmd` would move to, before any bound is checked: steps
    /// are a fifth of the current width and height, rounded down.
    pub open spec fn shifted(&self, cmd: Command) -> Viewport {
        let sx = (self.max_x - self.min_x) / 5;
        let sy = (self.max_y - self.min_y) / 5;
        match cmd {
            Command::ZoomIn => Viewport {
                min_x: (self.min_x + sx) as i128,
                max_x: (self.max_x - sx) as i128,
                min_y: (self.min_y + sy) as i128,
                max_y: (self.max_y - sy) as i128,
            },
            Command::ZoomOut => Viewport {
                min_x: (self.min_x - sx) as i128,
                max_x: (self.max_x + sx) as i128,
                min_y: (self.min_y - sy) as i128,
                max_y: (self.max_y + sy) as i128,
            },
            Command::Left => Viewport {
                min_x: (self.min_x - sx) as i128,
                max_x: (self.max_x - sx) as i128,
                ..*self
            },
            Command::Right => Viewport {
                min_x: (self.min_x + sx) as i128,
                max_x: (self.max_x + sx) as i128,
                ..*self
            },
            Command::Up => Viewport {
                min_y: (self.min_y - sy) as i128,
                max_y: (self.max_y - sy) as i128,
                ..*self
            },
            Command::Down => Viewport {
                min_y: (self.min_y + sy) as i128,
                max_y: (self.max_y + sy) as i128,
                ..*self
            },
        }
    }

    /// The view after `cmd`: the shifted view where it stays within the plane
    /// the library handles, else the view unchanged.
    pub open spec fn moved_spec(&self, cmd: Command) -> Viewport {
        if self.shifted(cmd).wf() {
            self.shifted(cmd)
        } else {
            *self
        }
    }

    /// The opening view.
    pub fn new() -> (r: Viewport)
        ensures
            r == Viewport::start(),
            r.wf(),
    {
        Viewport {
            min_x: -START_HALF_SIDE,
            max_x: START_HALF_SIDE,
            min_y: -START_HALF_SIDE,
            max_y: START_HALF_SIDE,
        }
    }

    /// The view after `cmd`; a move that would leave the plane the library
    /// handles leaves the view as it is.
    pub fn moved(&self, cmd: Command) -> (r: Viewport)
        requires
            self.wf(),
        ensures
            r == self.moved_spec(cmd),
            r.wf(),
    {
        let sx: i128 = (self.max_x - self.min_x) / 5;
        let sy: i128 = (self.max_y - self.min_y) / 5;
        let next = match cmd {
            Command::ZoomIn => Viewport {
                min_x: self.min_x + sx,
                max_x: self.max_x - sx,
                min_y: self.min_y + sy,
                max_y: self.max_y - sy,
            },
            Command::ZoomOut => Viewport {
                min_x: self.min_x - sx,
                max_x: self.max_x + sx,
                min_y: self.min_y - sy,
                max_y: self.max_y + sy,
            },
            Command::Left => Viewport { min_x: self.min_x - sx, max_x: self.max_x - sx, ..*self },
            Command::Right => Viewport { min_x: self.min_x + sx, max_x: self.max_x + sx, ..*self },
            Command::Up => Viewport { min_y: self.min_y - sy, max_y: self.max_y - sy, ..*self },
            Command::Down => Viewport { min_y: self.min_y + sy, max_y: self.max_y + sy, ..*self },
        };
        let inside = -LIMIT <= next.min_x && next.max_x <= LIMIT && next.min_x < next.max_x
            && -LIMIT <= next.min_y && next.max_y <= LIMIT && next.min_y < next.max_y;
        if inside {
            next
        } else {
            *self
        }
    }

    /// Real part of the point that column `x` of a grid `width` wide shows.
    pub fn pixel_x(&self, x: usize, width: usize) -> (r: i128)
        requires
            self.wf(),
            x < width,
        ensures
            r == self.pixel_re(x as int, width as int),
            self.min_x <= r < self.max_x,
    {
        scaled_point(self.min_x, self.max_x, x, width)
    }

    /// Imaginary part of the point that row `y` of a grid `height` high shows.
    pub fn pixel_y(&self, y: usize, height: usize) -> (r: i128)
        requires
            self.wf(),
            y < height,
        ensures
            r == self.pixel_im(y as int, height as int),
            self.min_y <= r < self.max_y,
    {
        scaled_point(self.min_y, self.max_y, y, height)
    }
}

fn scaled_point(lo: i128, hi: i128, i: usize, n: usize) -> (r: i128)
    requires
        in_plane(lo as int),
        in_plane(hi as int),
        lo < hi,
        i < n,
    ensures
        r == pixel_coord(lo as int, hi - lo, i as int, n as int),
        lo <= r < hi,
{
    let span: u128 = (hi - lo) as u128;
    assert(i * span < n * span && i * span <= 0x1_0000_0000_0000_0000 * 0x2000_0000_0000_0000)
        by (nonlinear_arith)
        requires
            i < n,
            0 < span <= 0x2000_0000_0000_0000,
            n <= 0x1_0000_0000_0000_0000,
    {
    }
    let q: u128 = (i as u128) * span / (n as u128);
    assert(q < span) by (nonlinear_arith)
        requires
            i * span < n * span,
            q == (i * span) / (n as int),
            n > 0,
    {
    }
    lo + q as i128
}

} // verus!
