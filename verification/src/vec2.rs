//! Horizontal world vectors.
//!
//! The simulated plane is horizontal: the vertical coordinate is pinned by the
//! render layer and is not part of the physical state, so a vector holds the
//! two ground-plane components `x` and `z` in fixed-point raw form.

use vstd::prelude::*;
use crate::fx::{
    FX_ONE, in_fx, clamp_fx, divt, mul_fx_exact, absi, sqrt_floor,
    lemma_sqrt_floor_bounds, lemma_divt_le_factor,
    clamp, add_fx, sub_fx, mul_fx, div_trunc, isqrt,
};

verus! {

/// A ground-plane vector with fixed-point components.
#[derive(Clone, Copy, PartialEq, Eq, Structural, Debug)]
pub struct Vec2 {
    pub x: i64,
    pub z: i64,
}

/// Both components are inside the stored range.
pub open spec fn in_fx_vec(v: Vec2) -> bool {
    in_fx(v.x as int) && in_fx(v.z as int)
}

/// Saturating vector sum.
pub open spec fn vadd(a: Vec2, b: Vec2) -> Vec2 {
    Vec2 {
        x: clamp_fx(a.x + b.x) as i64,
        z: clamp_fx(a.z + b.z) as i64,
    }
}

/// Saturating vector difference.
pub open spec fn vsub(a: Vec2, b: Vec2) -> Vec2 {
    Vec2 {
        x: clamp_fx(a.x - b.x) as i64,
        z: clamp_fx(a.z - b.z) as i64,
    }
}

/// Saturating fixed-point scaling of a vector.
pub open spec fn vscale(v: Vec2, k: int) -> Vec2 {
    Vec2 {
        x: clamp_fx(mul_fx_exact(v.x as int, k)) as i64,
        z: clamp_fx(mul_fx_exact(v.z as int, k)) as i64,
    }
}

/// Raw squared length: `FX_ONE * FX_ONE` times the squared world length.
pub open spec fn len_sq(v: Vec2) -> int {
    v.x * v.x + v.z * v.z
}

/// Raw length: the floor square root of the raw squared length.
pub open spec fn vlen(v: Vec2) -> int {
    sqrt_floor(len_sq(v) as nat) as int
}

/// Unit vector in the direction of `v` (components in `[-FX_ONE, FX_ONE]`),
/// or the zero vector when `v` is shorter than one raw step.
pub open spec fn vnormalize(v: Vec2) -> Vec2 {
    if vlen(v) == 0 {
        Vec2 { x: 0, z: 0 }
    } else {
        Vec2 {
            x: divt(v.x * FX_ONE, vlen(v)) as i64,
            z: divt(v.z * FX_ONE, vlen(v)) as i64,
        }
    }
}

/// Raw squared distance between two points, over the saturating difference.
pub open spec fn dist_sq(a: Vec2, b: Vec2) -> int {
    len_sq(vsub(a, b))
}

impl Vec2 {
    /// The origin.
    pub fn zero() -> (r: Vec2)
        ensures
            r == (Vec2 { x: 0i64, z: 0i64 }),
    {
        Vec2 { x: 0, z: 0 }
    }

    /// Build a vector from raw components, saturated to the stored range.
    pub fn new(x: i64, z: i64) -> (r: Vec2)
        ensures
            r == (Vec2 { x: clamp_fx(x as int) as i64, z: clamp_fx(z as int) as i64 }),
            in_fx_vec(r),
    {
        Vec2 { x: clamp(x), z: clamp(z) }
    }

    /// Saturating vector sum.
    pub fn add(self, other: Vec2) -> (r: Vec2)
        requires
            in_fx_vec(self),
            in_fx_vec(other),
        ensures
            r == vadd(self, other),
            in_fx_vec(r),
    {
        Vec2 { x: add_fx(self.x, other.x), z: add_fx(self.z, other.z) }
    }

    /// Saturating vector difference.
    pub fn sub(self, other: Vec2) -> (r: Vec2)
        requires
            in_fx_vec(self),
            in_fx_vec(other),
        ensures
            r == vsub(self, other),
            in_fx_vec(r),
    {
        Vec2 { x: sub_fx(self.x, other.x), z: sub_fx(self.z, other.z) }
    }

    /// Saturating fixed-point scaling.
    pub fn scale(self, k: i64) -> (r: Vec2)
        requires
            in_fx_vec(self),
            in_fx(k as int),
        ensures
            r == vscale(self, k as int),
            in_fx_vec(r),
    {
        Vec2 { x: mul_fx(self.x, k), z: mul_fx(self.z, k) }
    }

    /// Raw squared length.
    pub fn length_squared(self) -> (r: i64)
        requires
            in_fx_vec(self),
        ensures
            r as int == len_sq(self),
            0 <= r as int <= 0x2000000000000000,
    {
        proof {
            lemma_sq_bound(self.x as int);
            lemma_sq_bound(self.z as int);
        }
        self.x * self.x + self.z * self.z
    }

    /// Raw length.
    pub fn length(self) -> (r: i64)
        requires
            in_fx_vec(self),
        ensures
            r as int == vlen(self),
            0 <= r as int,
            (r as int) < 0x100000000,
    {
        let q: i64 = self.length_squared();
        let s: u64 = isqrt(q as u64);
        proof {
            lemma_sqrt_floor_bounds(q as nat);
            assert((s as int) * (s as int) <= 0x2000000000000000);
            assert((s as int) < 0x100000000) by (nonlinear_arith)
                requires
                    (s as int) * (s as int) <= 0x2000000000000000,
                    (s as int) >= 0,
            ;
        }
        s as i64
    }

    /// Raw squared distance to another point.
    pub fn distance_squared(self, other: Vec2) -> (r: i64)
        requires
            in_fx_vec(self),
            in_fx_vec(other),
        ensures
            r as int == dist_sq(self, other),
            0 <= r as int,
    {
        self.sub(other).length_squared()
    }

    /// Unit vector in the direction of `self`, or zero when `self` is zero.
    pub fn normalize_or_zero(self) -> (r: Vec2)
        requires
            in_fx_vec(self),
        ensures
            r == vnormalize(self),
            absi(r.x as int) <= FX_ONE as int,
            absi(r.z as int) <= FX_ONE as int,
            in_fx_vec(r),
    {
        let len: i64 = self.length();
        if len == 0 {
            Vec2 { x: 0, z: 0 }
        } else {
            proof {
                lemma_component_le_length(self);
                assert(absi(self.x * FX_ONE) <= FX_ONE * (len as int)) by (nonlinear_arith)
                    requires
                        absi(self.x as int) <= len as int,
                        FX_ONE as int > 0,
                ;
                assert(absi(self.z * FX_ONE) <= FX_ONE * (len as int)) by (nonlinear_arith)
                    requires
                        absi(self.z as int) <= len as int,
                        FX_ONE as int > 0,
                ;
                lemma_divt_le_factor(self.x * FX_ONE, len as int, FX_ONE as int);
                lemma_divt_le_factor(self.z * FX_ONE, len as int, FX_ONE as int);
            }
            let nx: i64 = div_trunc(self.x * FX_ONE, len);
            let nz: i64 = div_trunc(self.z * FX_ONE, len);
            Vec2 { x: nx, z: nz }
        }
    }
}

/// The square of a stored scalar is bounded by the square of the bound.
pub proof fn lemma_sq_bound(a: int)
    requires
        in_fx(a),
    ensures
        0 <= a * a <= 0x1000000000000000,
{
    assert(0 <= a * a <= 0x1000000000000000) by (nonlinear_arith)
        requires
            -0x40000000 <= a <= 0x40000000,
    ;
}

/// No component of a vector exceeds the vector's length.
pub proof fn lemma_component_le_length(v: Vec2)
    requires
        in_fx_vec(v),
    ensures
        absi(v.x as int) <= vlen(v),
        absi(v.z as int) <= vlen(v),
        vlen(v) == 0 ==> v.x == 0 && v.z == 0,
{
    lemma_sq_bound(v.x as int);
    lemma_sq_bound(v.z as int);
    lemma_sqrt_floor_bounds(len_sq(v) as nat);
    let l = vlen(v);
    assert(len_sq(v) < (l + 1) * (l + 1));
    if absi(v.x as int) > l {
        assert((l + 1) * (l + 1) <= v.x * v.x) by (nonlinear_arith)
            requires
                l + 1 <= absi(v.x as int),
                0 <= l,
        ;
        assert(0 <= v.z * v.z) by (nonlinear_arith);
        assert(false);
    }
    if absi(v.z as int) > l {
        assert((l + 1) * (l + 1) <= v.z * v.z) by (nonlinear_arith)
            requires
                l + 1 <= absi(v.z as int),
                0 <= l,
        ;
        assert(0 <= v.x * v.x) by (nonlinear_arith);
        assert(false);
    }
}

} // verus!
