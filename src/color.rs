//! The color map: an escape count becomes an RGBA color through HSL, in exact
//! integer arithmetic. Hue is held in thousandths of a degree, saturation and
//! lightness in thousandths of the full scale.
use vstd::prelude::*;
use crate::escape::MAX_ITERS;

verus! {

/// A full turn of hue, in thousandths of a degree.
pub const HUE_TURN: u64 = 360000;

/// A sixth of a turn of hue: the width of one sector of the color wheel.
pub const HUE_SECTOR: u64 = 60000;

/// The common denominator of the channel values below (`2 * 10^6 * HUE_SECTOR`).
pub const CHANNEL_DEN: u64 = 120000000000;

/// Whether `r` is the integer part of the square root of `n`.
pub open spec fn is_floor_sqrt(n: int, r: int) -> bool {
    0 <= r && r * r <= n < (r + 1) * (r + 1)
}

/// The integer part of the square root of `n`, by bisection.
pub fn floor_sqrt(n: u64) -> (r: u64)
    ensures
        is_floor_sqrt(n as int, r as int),
{
    let mut lo: u64 = 0;
    let mut hi: u64 = 0x1_0000_0000;
    assert(n < hi * hi);
    while hi - lo > 1
        invariant
            lo < hi <= 0x1_0000_0000,
            lo * lo <= n,
            n < hi * hi,
        decreases hi - lo,
    {
        let mid: u64 = lo + (hi - lo) / 2;
        assert(mid * mid < 0x1_0000_0000 * 0x1_0000_0000) by (nonlinear_arith)
            requires
                mid < 0x1_0000_0000,
        {
        }
        if mid * mid <= n {
            lo = mid;
        } else {
            hi = mid;
        }
    }
    lo
}

/// There is at most one integer square root.
pub proof fn lemma_floor_sqrt_unique(n: int, r1: int, r2: int)
    requires
        is_floor_sqrt(n, r1),
        is_floor_sqrt(n, r2),
    ensures
        r1 == r2,
{
    if r1 < r2 {
        assert((r1 + 1) * (r1 + 1) <= r2 * r2) by (nonlinear_arith)
            requires
                0 <= r1 < r2,
        {
        }
    } else if r2 < r1 {
        assert((r2 + 1) * (r2 + 1) <= r1 * r1) by (nonlinear_arith)
            requires
                0 <= r2 < r1,
        {
        }
    }
}

/// The integer part of the square root of a natural number.
pub open spec fn isqrt(n: int) -> int {
    choose|r: int| is_floor_sqrt(n, r)
}

/// The hue of an escape count, in thousandths of a degree: with `t = 360 * steps / MAX_ITERS`,
/// the integer part of `1000 * (t^1.5 mod 360)`. As `t = 18 * steps / 25`, it is
/// `floor(sqrt((18 * steps)^3 * 10^6) / 125)` taken modulo a full turn.
pub open spec fn steps_hue(steps: int) -> int {
    (isqrt((18 * steps) * (18 * steps) * (18 * steps) * 1000000) / 125) % (HUE_TURN as int)
}

/// The lightness of an escape count, in thousandths: `steps / MAX_ITERS`.
pub open spec fn steps_lightness(steps: int) -> int {
    2 * steps
}

/// The saturation the color map uses: one half.
pub const SATURATION: u64 = 500;

/// Chroma, in millionths: `(1 - |2l - 1|) * s`.
pub open spec fn chroma(s: int, l: int) -> int {
    let d = 2 * l - 1000;
    (1000 - (if d < 0 { -d } else { d })) * s
}

/// Where `h` falls in its pair of sectors, in thousandths of a degree: `1 - |(h / 60) mod 2 - 1|`
/// scaled by `HUE_SECTOR`.
pub open spec fn hue_ramp(h: int) -> int {
    let d = h % (2 * HUE_SECTOR as int) - HUE_SECTOR as int;
    HUE_SECTOR as int - (if d < 0 { -d } else { d })
}

/// The largest channel, over `CHANNEL_DEN`.
pub open spec fn top_part(s: int, l: int) -> int {
    chroma(s, l) * 120000
}

/// The middle channel, over `CHANNEL_DEN`.
pub open spec fn mid_part(h: int, s: int, l: int) -> int {
    chroma(s, l) * hue_ramp(h) * 2
}

/// The lightness offset added to every channel, over `CHANNEL_DEN`: `l - c / 2`.
pub open spec fn offset_part(s: int, l: int) -> int {
    (2000 * l - chroma(s, l)) * 60000
}

/// `v` brought into a byte's range: below 0 gives 0, above 255 gives 255.
pub open spec fn clamp_byte(v: int) -> int {
    if v < 0 {
        0
    } else if v > 255 {
        255
    } else {
        v
    }
}

/// A channel: `floor((v + m) * 255)` clamped to `0..=255`, where `v` is the channel's part.
pub open spec fn channel(part: int, s: int, l: int) -> int {
    clamp_byte((part + offset_part(s, l)) * 255 / (CHANNEL_DEN as int))
}

/// Parts of red, green and blue, by the sector of the hue.
pub open spec fn rgb_parts(h: int, s: int, l: int) -> (int, int, int) {
    let c = top_part(s, l);
    let x = mid_part(h, s, l);
    let sector = h / (HUE_SECTOR as int);
    if sector == 0 {
        (c, x, 0)
    } else if sector == 1 {
        (x, c, 0)
    } else if sector == 2 {
        (0, c, x)
    } else if sector == 3 {
        (0, x, c)
    } else if sector == 4 {
        (x, 0, c)
    } else {
        (c, 0, x)
    }
}

/// The opaque RGBA color of hue `h`, saturation `s` and lightness `l`.
pub open spec fn hsl_rgba(h: int, s: int, l: int) -> Seq<u8> {
    let (r, g, b) = rgb_parts(h, s, l);
    seq![channel(r, s, l) as u8, channel(g, s, l) as u8, channel(b, s, l) as u8, 255u8]
}

/// The color of an escape count.
pub open spec fn rgba_of_steps(steps: int) -> Seq<u8> {
    hsl_rgba(steps_hue(steps), SATURATION as int, steps_lightness(steps))
}

/// One channel whose part and offset together come to `a * chroma + 120000000 * l`
/// over `CHANNEL_DEN`, where `chroma = k * s`. Where that value cannot be held
/// exactly its size alone puts the channel at 0 or 255.
fn weighted_channel(a: i128, k: i128, s: u64, l: u64) -> (r: u8)
    requires
        -60000 <= a <= 60000,
        -0x4_0000_0000_0000_0000 <= k <= 1000,
    ensures
        r as int == clamp_byte((a * (k * s) + 120000000 * l) * 255 / (CHANNEL_DEN as int)),
{
    let ghost v_spec: int = a * (k * s) + 120000000 * l;
    assert(-0x4_0000_0000_0000_0000 * 60000 <= a * k <= 0x4_0000_0000_0000_0000 * 60000
        && a * (k * s) == (a * k) * s) by (nonlinear_arith)
        requires
            -60000 <= a <= 60000,
            -0x4_0000_0000_0000_0000 <= k <= 1000,
    {
    }
    let q: i128 = a * k;
    let b: i128 = 120000000 * (l as i128);
    let sw: i128 = s as i128;
    let small_q: bool = -0x1000_0000_0000_0000 < q && q < 0x1000_0000_0000_0000;
    if sw <= 0x100_0000_0000 || small_q {
        if sw <= 0x100_0000_0000 {
            assert(-0x4_0000_0000_0000_0000 * 60000 * 0x100_0000_0000 <= q * sw
                <= 0x4_0000_0000_0000_0000 * 60000 * 0x100_0000_0000) by (nonlinear_arith)
                requires
                    -0x4_0000_0000_0000_0000 * 60000 <= q <= 0x4_0000_0000_0000_0000 * 60000,
                    0 <= sw <= 0x100_0000_0000,
            {
            }
        } else {
            assert(-0x1000_0000_0000_0000 * 0x1_0000_0000_0000_0000 <= q * sw
                <= 0x1000_0000_0000_0000 * 0x1_0000_0000_0000_0000) by (nonlinear_arith)
                requires
                    -0x1000_0000_0000_0000 < q < 0x1000_0000_0000_0000,
                    0 <= sw <= 0xFFFF_FFFF_FFFF_FFFF,
            {
            }
        }
        let v: i128 = q * sw + b;
        assert(v == v_spec);
        if v < 0 {
            assert(v * 255 / (CHANNEL_DEN as int) < 0);
            0
        } else if v >= CHANNEL_DEN as i128 {
            assert(v * 255 / (CHANNEL_DEN as int) >= 255);
            255
        } else {
            let c: i128 = v * 255 / (CHANNEL_DEN as i128);
            assert(0 <= c <= 255);
            c as u8
        }
    } else if q > 0 {
        assert(q * sw >= 0x10_0000_0000_0000_0000_0000_0000) by (nonlinear_arith)
            requires
                q >= 0x1000_0000_0000_0000,
                sw > 0x100_0000_0000,
        {
        }
        assert(v_spec * 255 / (CHANNEL_DEN as int) >= 255);
        255
    } else {
        assert(q * sw <= -0x10_0000_0000_0000_0000_0000_0000) by (nonlinear_arith)
            requires
                q <= -0x1000_0000_0000_0000,
                sw > 0x100_0000_0000,
        {
        }
        assert(v_spec * 255 / (CHANNEL_DEN as int) < 0);
        0
    }
}

/// The RGBA color, as four bytes, of hue `h` (thousandths of a degree),
/// saturation `s` and lightness `l` (thousandths). A hue of a full turn or
/// more falls in the last sector, from magenta to red; a channel that comes
/// out below 0 or above 255 is clamped.
pub fn hsl_to_rgba(h: u64, s: u64, l: u64) -> (r: Vec<u8>)
    ensures
        r@ == hsl_rgba(h as int, s as int, l as int),
{
    let twice_l: i128 = 2 * (l as i128);
    let d: i128 = if twice_l >= 1000 { twice_l - 1000 } else { 1000 - twice_l };
    let k: i128 = 1000 - d;
    let wrapped: u64 = h % (2 * HUE_SECTOR);
    let e: u64 = if wrapped >= HUE_SECTOR { wrapped - HUE_SECTOR } else { HUE_SECTOR - wrapped };
    let ramp: i128 = (HUE_SECTOR - e) as i128;
    let top: i128 = 60000;
    let mid: i128 = 2 * ramp - 60000;
    let zero: i128 = -60000;
    proof {
        let c = chroma(s as int, l as int);
        assert(c == k * s);
        assert(mid_part(h as int, s as int, l as int) + offset_part(s as int, l as int) == mid * (k
            * s) + 120000000 * l) by (nonlinear_arith)
            requires
                c == k * s,
                ramp == hue_ramp(h as int),
                mid == 2 * ramp - 60000,
                mid_part(h as int, s as int, l as int) == c * ramp * 2,
                offset_part(s as int, l as int) == (2000 * l - c) * 60000,
        {
        }
    }
    let sector: u64 = h / HUE_SECTOR;
    let (ar, ag, ab): (i128, i128, i128) = if sector == 0 {
        (top, mid, zero)
    } else if sector == 1 {
        (mid, top, zero)
    } else if sector == 2 {
        (zero, top, mid)
    } else if sector == 3 {
        (zero, mid, top)
    } else if sector == 4 {
        (mid, zero, top)
    } else {
        (top, zero, mid)
    };
    let red: u8 = weighted_channel(ar, k, s, l);
    let green: u8 = weighted_channel(ag, k, s, l);
    let blue: u8 = weighted_channel(ab, k, s, l);
    let ghost parts = rgb_parts(h as int, s as int, l as int);
    assert(parts.0 + offset_part(s as int, l as int) == ar * (k * s) + 120000000 * l);
    assert(parts.1 + offset_part(s as int, l as int) == ag * (k * s) + 120000000 * l);
    assert(parts.2 + offset_part(s as int, l as int) == ab * (k * s) + 120000000 * l);
    let r = vec![red, green, blue, 255u8];
    assert(r@ =~= hsl_rgba(h as int, s as int, l as int));
    r
}

/// The color of an escape count: hue from `(360 * steps / MAX_ITERS)^1.5`
/// wrapped to a turn, saturation one half, lightness `steps / MAX_ITERS`.
/// Past `MAX_ITERS` the lightness exceeds full and every channel saturates: white.
pub fn steps_to_rgb(steps: usize) -> (r: Vec<u8>)
    ensures
        steps <= MAX_ITERS ==> r@ == rgba_of_steps(steps as int),
        steps > MAX_ITERS ==> r@ == seq![255u8, 255u8, 255u8, 255u8],
{
    if steps > MAX_ITERS {
        return vec![255u8, 255u8, 255u8, 255u8];
    }
    let a: u64 = 18 * steps as u64;
    assert(a * a <= 81000000 && a * a * a <= 729000000000 && a * a * a * 1000000 <= 729000000000000000) by (nonlinear_arith)
        requires
            0 <= a <= 9000,
    {
    }
    let n: u64 = a * a * a * 1000000;
    let root: u64 = floor_sqrt(n);
    proof {
        lemma_floor_sqrt_unique(n as int, root as int, isqrt(n as int));
    }
    let hue: u64 = root / 125 % HUE_TURN;
    hsl_to_rgba(hue, SATURATION, 2 * steps as u64)
}

} // verus!
