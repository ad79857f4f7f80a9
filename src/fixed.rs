//! Fixed-point numbers: a plane coordinate `v` is held as the integer `v * ONE`.
use vstd::prelude::*;

verus! {

/// The fixed-point value of 1 (56 fractional bits).
pub const ONE: i128 = 72057594037927936;

/// The fixed-point value of 2, the escape radius.
pub const TWO: i128 = 144115188075855872;

/// The square of the escape radius, at the scale of a product of two values (`4 * ONE * ONE`).
pub const RADIUS_SQ: i128 = 20769187434139310514121985316880384;

/// Every coordinate the library handles lies in `[-LIMIT, LIMIT]` (the plane from -16 to 16).
pub const LIMIT: i128 = 1152921504606846976;

/// Whether `v` is a coordinate the library handles.
pub open spec fn in_plane(v: int) -> bool {
    -LIMIT <= v <= LIMIT
}

/// `p / ONE` rounded toward zero.
pub open spec fn trunc_scale(p: int) -> int {
    if p >= 0 {
        p / (ONE as int)
    } else {
        -((-p) / (ONE as int))
    }
}

/// Brings a product of two fixed-point values back to the scale of one value,
/// rounding toward zero.
pub fn scale_down(p: i128) -> (r: i128)
    requires
        -RADIUS_SQ * 4 <= p <= RADIUS_SQ * 4,
    ensures
        r == trunc_scale(p as int),
        -TWO * 8 <= r <= TWO * 8,
{
    if p >= 0 {
        p / ONE
    } else {
        let n: i128 = -p;
        -(n / ONE)
    }
}

} // verus!
