//! Mob colours for the render snapshot.
//!
//! A channel is a fixed-point fraction in `[0, FX_ONE]`. The simulation only
//! picks a base colour per mob kind and blends it toward the attacked flash
//! colour after damage; drawing is the render layer's concern.

use vstd::prelude::*;
use crate::fx::{FX_ONE, divt, div_trunc, lemma_divt_bounds, lemma_divt_ordered};

verus! {

/// An RGB colour with fixed-point channels.
#[derive(Clone, Copy, PartialEq, Eq, Structural, Debug)]
pub struct Rgb {
    pub r: i64,
    pub g: i64,
    pub b: i64,
}

/// Every channel is a fraction in `[0, FX_ONE]`.
pub open spec fn rgb_wf(c: Rgb) -> bool {
    &&& 0 <= c.r <= FX_ONE
    &&& 0 <= c.g <= FX_ONE
    &&& 0 <= c.b <= FX_ONE
}

/// One linearly interpolated channel: `a + (b - a) * v / FX_ONE`.
pub open spec fn lerp_channel(a: int, b: int, v: int) -> int {
    a + divt((b - a) * v, FX_ONE as int)
}

/// Linear interpolation from `c1` (at `v == 0`) to `c2` (at `v == FX_ONE`).
pub open spec fn spec_color_lerp(c1: Rgb, c2: Rgb, v: int) -> Rgb {
    Rgb {
        r: lerp_channel(c1.r as int, c2.r as int, v) as i64,
        g: lerp_channel(c1.g as int, c2.g as int, v) as i64,
        b: lerp_channel(c1.b as int, c2.b as int, v) as i64,
    }
}

/// The flash colour a damaged mob blends from.
pub open spec fn attacked_rgb() -> Rgb {
    Rgb { r: 922, g: 410, b: 410 }
}

/// The flash colour a damaged mob blends from.
pub fn attacked_color() -> (c: Rgb)
    ensures
        c == attacked_rgb(),
        rgb_wf(c),
{
    Rgb { r: 922, g: 410, b: 410 }
}

/// An interpolated channel stays between its two endpoints.
proof fn lemma_lerp_channel_bounds(a: int, b: int, v: int)
    requires
        0 <= a <= FX_ONE as int,
        0 <= b <= FX_ONE as int,
        0 <= v <= FX_ONE as int,
    ensures
        0 <= lerp_channel(a, b, v) <= FX_ONE as int,
{
    if b >= a {
        assert(0 <= (b - a) * v) by (nonlinear_arith)
            requires
                0 <= b - a,
                0 <= v,
        ;
        assert((b - a) * v <= (b - a) * (FX_ONE as int)) by (nonlinear_arith)
            requires
                0 <= b - a,
                v <= FX_ONE as int,
        ;
        lemma_divt_bounds((b - a) * v, FX_ONE as int);
        lemma_divt_ordered((b - a) * v, (b - a) * (FX_ONE as int), FX_ONE as int);
        vstd::arithmetic::div_mod::lemma_div_by_multiple(b - a, FX_ONE as int);
        assert(divt((b - a) * v, FX_ONE as int) <= b - a);
    } else {
        assert((b - a) * v <= 0) by (nonlinear_arith)
            requires
                b - a <= 0,
                0 <= v,
        ;
        assert(-((b - a) * v) == (a - b) * v) by (nonlinear_arith);
        assert((a - b) * v <= (a - b) * (FX_ONE as int)) by (nonlinear_arith)
            requires
                0 <= a - b,
                v <= FX_ONE as int,
        ;
        lemma_divt_bounds((b - a) * v, FX_ONE as int);
        lemma_divt_ordered((a - b) * v, (a - b) * (FX_ONE as int), FX_ONE as int);
        vstd::arithmetic::div_mod::lemma_div_by_multiple(a - b, FX_ONE as int);
        assert(divt((a - b) * v, FX_ONE as int) <= a - b);
        assert(divt((b - a) * v, FX_ONE as int) == -divt((a - b) * v, FX_ONE as int));
    }
}

/// Per-channel linear interpolation between two colours.
pub fn color_lerp(c1: Rgb, c2: Rgb, v: i64) -> (c: Rgb)
    requires
        rgb_wf(c1),
        rgb_wf(c2),
        0 <= v <= FX_ONE,
    ensures
        c == spec_color_lerp(c1, c2, v as int),
        rgb_wf(c),
{
    proof {
        lemma_lerp_channel_bounds(c1.r as int, c2.r as int, v as int);
        lemma_lerp_channel_bounds(c1.g as int, c2.g as int, v as int);
        lemma_lerp_channel_bounds(c1.b as int, c2.b as int, v as int);
    }
    let r: i64 = c1.r + div_trunc((c2.r - c1.r) * v, FX_ONE);
    let g: i64 = c1.g + div_trunc((c2.g - c1.g) * v, FX_ONE);
    let b: i64 = c1.b + div_trunc((c2.b - c1.b) * v, FX_ONE);
    Rgb { r, g, b }
}

} // verus!
