//! Escape-time evaluation of a point of the plane.
use vstd::prelude::*;
use crate::fixed::{in_plane, scale_down, trunc_scale, TWO, RADIUS_SQ};

verus! {

/// The most iterations spent on one point; a point that has not escaped by
/// then counts as inside the set.
pub const MAX_ITERS: usize = 500;

/// Whether the orbit point `x + iy` lies outside the circle of radius 2.
pub open spec fn escaped(x: int, y: int) -> bool {
    x * x + y * y > RADIUS_SQ
}

/// Real part of `z * z + c` in fixed point.
pub open spec fn next_re(x: int, y: int, cx: int) -> int {
    trunc_scale(x * x - y * y) + cx
}

/// Imaginary part of `z * z + c` in fixed point.
pub open spec fn next_im(x: int, y: int, cy: int) -> int {
    trunc_scale(2 * x * y) + cy
}

/// Escape count of the orbit of `c` that is at `x + iy` after `i` steps.
pub open spec fn orbit_escape(x: int, y: int, cx: int, cy: int, i: nat) -> nat
    decreases MAX_ITERS - i,
{
    if i >= MAX_ITERS {
        MAX_ITERS as nat
    } else if escaped(x, y) {
        i
    } else {
        orbit_escape(next_re(x, y, cx), next_im(x, y, cy), cx, cy, i + 1)
    }
}

/// The escape time of `c = cx + i cy`: the first `i` below `MAX_ITERS` at which
/// `z_i` (with `z_0 = 0`, `z_{i+1} = z_i^2 + c`) lies outside radius 2, else `MAX_ITERS`.
pub open spec fn escape_time(cx: int, cy: int) -> nat {
    orbit_escape(0, 0, cx, cy, 0)
}

proof fn lemma_orbit_conjugate(x: int, y: int, cx: int, cy: int, i: nat)
    ensures
        orbit_escape(x, -y, cx, -cy, i) == orbit_escape(x, y, cx, cy, i),
    decreases MAX_ITERS - i,
{
    assert((-y) * (-y) == y * y) by (nonlinear_arith);
    assert(2 * x * (-y) == -(2 * x * y)) by (nonlinear_arith);
    if i < MAX_ITERS && !escaped(x, y) {
        assert(next_im(x, -y, -cy) == -next_im(x, y, cy));
        lemma_orbit_conjugate(next_re(x, y, cx), next_im(x, y, cy), cx, cy, i + 1);
    }
}

/// A point and its complex conjugate take the same number of iterations to
/// escape: the set is symmetric about the real axis.
pub proof fn lemma_escape_time_conjugate(cx: int, cy: int)
    ensures
        escape_time(cx, -cy) == escape_time(cx, cy),
{
    lemma_orbit_conjugate(0, 0, cx, cy, 0);
}

/// Number of iterations before the orbit of `cx + i cy` escapes radius 2,
/// capped at `MAX_ITERS`.
pub fn get_mondelbrot(cx: i128, cy: i128) -> (r: usize)
    requires
        in_plane(cx as int),
        in_plane(cy as int),
    ensures
        r == escape_time(cx as int, cy as int),
        r <= MAX_ITERS,
{
    let mut x: i128 = 0;
    let mut y: i128 = 0;
    let mut i: usize = 0;
    while i < MAX_ITERS
        invariant
            i <= MAX_ITERS,
            in_plane(cx as int),
            in_plane(cy as int),
            orbit_escape(x as int, y as int, cx as int, cy as int, i as nat) == escape_time(
                cx as int,
                cy as int,
            ),
        decreases MAX_ITERS - i,
    {
        if x > TWO || x < -TWO || y > TWO || y < -TWO {
            assert(escaped(x as int, y as int)) by (nonlinear_arith)
                requires
                    x > TWO || x < -TWO || y > TWO || y < -TWO,
                    RADIUS_SQ == TWO * TWO,
            {
            }
            return i;
        }
        assert(0 <= x * x <= RADIUS_SQ && 0 <= y * y <= RADIUS_SQ && -RADIUS_SQ * 2 <= 2 * x * y
            <= RADIUS_SQ * 2) by (nonlinear_arith)
            requires
                -TWO <= x <= TWO,
                -TWO <= y <= TWO,
                RADIUS_SQ == TWO * TWO,
        {
        }
        let xx: i128 = x * x;
        let yy: i128 = y * y;
        if xx + yy > RADIUS_SQ {
            return i;
        }
        let re: i128 = scale_down(xx - yy) + cx;
        let im: i128 = scale_down(2 * x * y) + cy;
        x = re;
        y = im;
        i = i + 1;
    }
    MAX_ITERS
}

} // verus!
