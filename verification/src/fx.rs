//! Fixed-point scalar arithmetic.
//!
//! Every scalar of the simulation (coordinates, velocities, forces, health,
//! seconds) is a multiple of `1/FX_ONE` of a unit, stored in an `i64`. Stored
//! values are kept inside `[-FX_LIMIT, FX_LIMIT]` by saturation, so that every
//! intermediate product of two stored values fits an `i64` with room to spare.

use vstd::prelude::*;
use vstd::arithmetic::div_mod::{lemma_div_pos_is_pos, lemma_div_nonincreasing, lemma_div_is_ordered};
use vstd::arithmetic::mul::lemma_mul_inequality;

verus! {

/// One world unit (and one second) in raw fixed-point form.
pub const FX_ONE: i64 = 1024;

/// Saturation bound of every stored scalar: a little over one million world
/// units, far beyond the playfield, yet small enough that products of two
/// stored values stay well inside `i64`.
pub const FX_LIMIT: i64 = 1073741824;

/// Largest elapsed time (raw fixed-point seconds) a single tick accepts: 64 s.
pub const DT_LIMIT: i64 = 65536;

/// A raw scalar the simulation may store.
pub open spec fn in_fx(a: int) -> bool {
    -(FX_LIMIT as int) <= a <= FX_LIMIT as int
}

/// Saturation to the stored range.
pub open spec fn clamp_fx(a: int) -> int {
    if a < -(FX_LIMIT as int) {
        -(FX_LIMIT as int)
    } else if a > FX_LIMIT as int {
        FX_LIMIT as int
    } else {
        a
    }
}

/// Division rounding toward zero (the behaviour of `/` on machine integers),
/// meaningful for `b > 0`.
pub open spec fn divt(a: int, b: int) -> int {
    if a >= 0 {
        a / b
    } else {
        -((-a) / b)
    }
}

/// Division rounding away from zero, for `a >= 0`, `b > 0`.
pub open spec fn divc(a: int, b: int) -> int {
    (a + b - 1) / b
}

/// Fixed-point product of two raw scalars (exact value, before saturation).
pub open spec fn mul_fx_exact(a: int, b: int) -> int {
    divt(a * b, FX_ONE as int)
}

/// Absolute value.
pub open spec fn absi(a: int) -> int {
    if a < 0 {
        -a
    } else {
        a
    }
}

/// Truncating division keeps the quotient between zero and the dividend.
pub proof fn lemma_divt_bounds(a: int, b: int)
    requires
        b >= 1,
    ensures
        a >= 0 ==> 0 <= divt(a, b) <= a,
        a < 0 ==> a <= divt(a, b) <= 0,
{
    if a >= 0 {
        lemma_div_pos_is_pos(a, b);
        lemma_div_nonincreasing(a, b);
    } else {
        lemma_div_pos_is_pos(-a, b);
        lemma_div_nonincreasing(-a, b);
    }
}

/// Truncating division by a positive divisor is monotone in the dividend.
pub proof fn lemma_divt_ordered(a1: int, a2: int, b: int)
    requires
        b >= 1,
        a1 <= a2,
    ensures
        divt(a1, b) <= divt(a2, b),
{
    if a1 >= 0 {
        lemma_div_is_ordered(a1, a2, b);
    } else if a2 < 0 {
        lemma_div_is_ordered(-a2, -a1, b);
    } else {
        lemma_div_pos_is_pos(a2, b);
        lemma_div_pos_is_pos(-a1, b);
    }
}

/// A dividend no larger in magnitude than `c * b` divides to at most `c`.
pub proof fn lemma_divt_le_factor(a: int, b: int, c: int)
    requires
        b >= 1,
        c >= 0,
        absi(a) <= c * b,
    ensures
        absi(divt(a, b)) <= c,
{
    lemma_divt_bounds(a, b);
    if a >= 0 {
        lemma_divt_ordered(a, c * b, b);
        vstd::arithmetic::div_mod::lemma_div_by_multiple(c, b);
    } else {
        lemma_divt_ordered(-a, c * b, b);
        vstd::arithmetic::div_mod::lemma_div_by_multiple(c, b);
    }
}

/// Saturate a raw value to the stored range.
pub fn clamp(a: i64) -> (r: i64)
    ensures
        r as int == clamp_fx(a as int),
        in_fx(r as int),
{
    if a < -FX_LIMIT {
        -FX_LIMIT
    } else if a > FX_LIMIT {
        FX_LIMIT
    } else {
        a
    }
}

/// Saturating sum of two stored scalars.
pub fn add_fx(a: i64, b: i64) -> (r: i64)
    requires
        in_fx(a as int),
        in_fx(b as int),
    ensures
        r as int == clamp_fx(a as int + b as int),
        in_fx(r as int),
{
    clamp(a + b)
}

/// Saturating difference of two stored scalars.
pub fn sub_fx(a: i64, b: i64) -> (r: i64)
    requires
        in_fx(a as int),
        in_fx(b as int),
    ensures
        r as int == clamp_fx(a as int - b as int),
        in_fx(r as int),
{
    clamp(a - b)
}

/// Division of an `i64` by a positive divisor, rounding toward zero.
pub fn div_trunc(a: i64, b: i64) -> (r: i64)
    requires
        b >= 1,
    ensures
        r as int == divt(a as int, b as int),
{
    proof {
        lemma_divt_bounds(a as int, b as int);
    }
    match a.checked_div(b) {
        Some(q) => q,
        None => {
            proof {
                assert(false);
            }
            0
        },
    }
}

/// Saturating fixed-point product of two stored scalars.
pub fn mul_fx(a: i64, b: i64) -> (r: i64)
    requires
        in_fx(a as int),
        in_fx(b as int),
    ensures
        r as int == clamp_fx(mul_fx_exact(a as int, b as int)),
        in_fx(r as int),
{
    proof {
        lemma_mul_fits(a as int, b as int, FX_LIMIT as int, FX_LIMIT as int);
    }
    let p: i64 = a * b;
    let q: i64 = div_trunc(p, FX_ONE);
    proof {
        lemma_divt_bounds(p as int, FX_ONE as int);
    }
    clamp(q)
}

/// A product of values bounded by `ba` and `bb` is bounded by `ba * bb`.
pub proof fn lemma_mul_fits(a: int, b: int, ba: int, bb: int)
    requires
        -ba <= a <= ba,
        -bb <= b <= bb,
        0 <= ba,
        0 <= bb,
    ensures
        -(ba * bb) <= a * b <= ba * bb,
{
    assert(-(ba * bb) <= a * b <= ba * bb) by (nonlinear_arith)
        requires
            -ba <= a <= ba,
            -bb <= b <= bb,
            0 <= ba,
            0 <= bb,
    ;
}

/// Floor square root, defined recursively over the naturals.
pub open spec fn sqrt_floor(q: nat) -> nat
    decreases q,
{
    if q == 0 {
        0
    } else {
        let p = sqrt_floor((q - 1) as nat);
        if (p + 1) * (p + 1) <= q {
            p + 1
        } else {
            p
        }
    }
}

/// `sqrt_floor(q)` is the unique `r` with `r * r <= q < (r + 1) * (r + 1)`.
pub proof fn lemma_sqrt_floor_bounds(q: nat)
    ensures
        sqrt_floor(q) * sqrt_floor(q) <= q,
        q < (sqrt_floor(q) + 1) * (sqrt_floor(q) + 1),
    decreases q,
{
    if q > 0 {
        lemma_sqrt_floor_bounds((q - 1) as nat);
        let p = sqrt_floor((q - 1) as nat);
        assert(p * p <= q - 1);
        assert(q - 1 < (p + 1) * (p + 1));
        if (p + 1) * (p + 1) <= q {
            assert(sqrt_floor(q) == p + 1);
            assert((p + 1) * (p + 1) + 1 <= (p + 2) * (p + 2)) by (nonlinear_arith);
            assert(q < (p + 2) * (p + 2));
        } else {
            assert(sqrt_floor(q) == p);
            assert(p * p <= q);
            assert(q < (p + 1) * (p + 1));
        }
    } else {
        assert(sqrt_floor(0) == 0);
        assert((sqrt_floor(q) + 1) * (sqrt_floor(q) + 1) == 1) by (nonlinear_arith)
            requires
                sqrt_floor(q) == 0,
        ;
    }
}

/// Any `r` bracketing `q` between consecutive squares is the floor square root.
pub proof fn lemma_sqrt_floor_unique(q: nat, r: nat)
    requires
        r * r <= q,
        q < (r + 1) * (r + 1),
    ensures
        r == sqrt_floor(q),
{
    lemma_sqrt_floor_bounds(q);
    let s = sqrt_floor(q);
    if r < s {
        lemma_mul_inequality(r as int + 1, s as int, s as int);
        assert((r + 1) * (r + 1) <= s * s) by (nonlinear_arith)
            requires
                r + 1 <= s,
        ;
    }
    if s < r {
        assert((s + 1) * (s + 1) <= r * r) by (nonlinear_arith)
            requires
                s + 1 <= r,
        ;
    }
}

/// Floor square root of a raw sum of squares, by bisection.
pub fn isqrt(q: u64) -> (r: u64)
    requires
        (q as int) < 0x4000000000000000,
    ensures
        r as nat == sqrt_floor(q as nat),
        (r as int) * (r as int) <= q as int,
        (q as int) < (r as int + 1) * (r as int + 1),
{
    let mut lo: u64 = 0;
    let mut hi: u64 = 2147483648;
    proof {
        assert((hi as int) * (hi as int) == 0x4000000000000000) by (nonlinear_arith)
            requires
                hi == 2147483648u64,
        ;
    }
    while lo + 1 < hi
        invariant
            lo < hi <= 2147483648,
            (lo as int) * (lo as int) <= q as int,
            (q as int) < (hi as int) * (hi as int),
        decreases hi - lo,
    {
        let mid: u64 = lo + (hi - lo) / 2;
        proof {
            assert((mid as int) * (mid as int) <= 0x4000000000000000) by (nonlinear_arith)
                requires
                    0 <= mid as int <= 2147483648,
            ;
        }
        let sq: u64 = mid * mid;
        if sq <= q {
            lo = mid;
        } else {
            hi = mid;
        }
    }
    proof {
        lemma_sqrt_floor_unique(q as nat, lo as nat);
    }
    lo
}

} // verus!
