//! Shared motion model and its integration step.
//!
//! One integration step, given the net force accumulated for the tick and the
//! elapsed time `dt` (raw fixed-point seconds):
//! 1. `acceleration = force / mass`;
//! 2. `velocity += acceleration * dt`;
//! 3. quadratic drag: `velocity -= drag * velocity * |velocity| * dt`,
//!    applied as a single per-tick factor `drag * |velocity| * dt` that is
//!    rounded up and saturated at one, so a step can shrink the velocity to
//!    zero but never flip its direction (drag saturation);
//! 4. `position += velocity * dt`;
//! 5. the accumulated force is reset to zero.

use vstd::prelude::*;
use crate::fx::{
    FX_ONE, FX_LIMIT, DT_LIMIT, in_fx, clamp_fx, divt, divc, absi, mul_fx_exact, sqrt_floor,
    lemma_divt_bounds, lemma_divt_ordered, lemma_divt_le_factor, lemma_mul_fits,
    clamp, div_trunc,
};
use crate::vec2::{Vec2, in_fx_vec, vadd, vscale, len_sq, vlen};

verus! {

/// Position, velocity, acceleration and per-tick force accumulator of one
/// simulated entity, with its mass and drag coefficient.
#[derive(Clone, Copy, PartialEq, Eq, Structural, Debug)]
pub struct KinematicBody {
    pub pos: Vec2,
    pub vel: Vec2,
    pub acc: Vec2,
    pub force: Vec2,
    pub mass: i64,
    pub drag: i64,
}

/// Mass is positive, drag is a fraction in `[0, 1]`, and every stored vector
/// is inside the saturation range.
pub open spec fn body_wf(b: KinematicBody) -> bool {
    &&& in_fx_vec(b.pos)
    &&& in_fx_vec(b.vel)
    &&& in_fx_vec(b.acc)
    &&& in_fx_vec(b.force)
    &&& 1 <= b.mass <= FX_LIMIT
    &&& 0 <= b.drag <= FX_ONE
}

/// Acceleration produced by a net force: `force / mass` per component.
pub open spec fn spec_accel(force: Vec2, mass: int) -> Vec2 {
    Vec2 {
        x: clamp_fx(divt(force.x * FX_ONE, mass)) as i64,
        z: clamp_fx(divt(force.z * FX_ONE, mass)) as i64,
    }
}

/// The per-tick drag factor `drag * |velocity| * dt`, rounded up and
/// saturated at one (`FX_ONE`), so that drag alone never reverses a velocity.
pub open spec fn drag_factor(cd: int, speed: int, dt: int) -> int {
    let raw = divc(cd * speed * dt, (FX_ONE * FX_ONE) as int);
    if raw > FX_ONE as int {
        FX_ONE as int
    } else {
        raw
    }
}

/// The drag factor is a fraction in `[0, 1]` for any nonnegative inputs.
pub proof fn lemma_drag_factor_bounds(cd: int, speed: int, dt: int)
    requires
        0 <= cd,
        0 <= speed,
        0 <= dt,
    ensures
        0 <= drag_factor(cd, speed, dt) <= FX_ONE as int,
{
    assert(0 <= cd * speed * dt) by (nonlinear_arith)
        requires
            0 <= cd,
            0 <= speed,
            0 <= dt,
    ;
    lemma_divt_bounds(cd * speed * dt + 1048575, 1048576);
}

/// A velocity scaled down by a drag factor `f`: `v * (1 - f)` per component,
/// rounded toward zero.
pub open spec fn spec_drag_vel(v: Vec2, f: int) -> Vec2 {
    Vec2 {
        x: divt(v.x * (FX_ONE - f), FX_ONE as int) as i64,
        z: divt(v.z * (FX_ONE - f), FX_ONE as int) as i64,
    }
}

/// Velocity after the drag step: the factor is computed from the velocity's
/// own length.
pub open spec fn spec_glide_vel(v: Vec2, cd: int, dt: int) -> Vec2 {
    spec_drag_vel(v, drag_factor(cd, vlen(v), dt))
}

/// One full integration step of a body driven by its accumulated force.
pub open spec fn spec_body_step(b: KinematicBody, dt: int) -> KinematicBody {
    let acc = spec_accel(b.force, b.mass as int);
    let vel1 = vadd(b.vel, vscale(acc, dt));
    let vel2 = spec_glide_vel(vel1, b.drag as int, dt);
    let pos2 = vadd(b.pos, vscale(vel2, dt));
    KinematicBody {
        pos: pos2,
        vel: vel2,
        acc: acc,
        force: Vec2 { x: 0, z: 0 },
        mass: b.mass,
        drag: b.drag,
    }
}

/// Acceleration from the accumulated force: `force / mass` per component.
pub fn accel_from_force(force: Vec2, mass: i64) -> (r: Vec2)
    requires
        in_fx_vec(force),
        1 <= mass,
    ensures
        r == spec_accel(force, mass as int),
        in_fx_vec(r),
{
    let ax: i64 = clamp(div_trunc(force.x * FX_ONE, mass));
    let az: i64 = clamp(div_trunc(force.z * FX_ONE, mass));
    Vec2 { x: ax, z: az }
}

/// The saturated per-tick drag factor.
pub fn drag_factor_exec(cd: i64, speed: i64, dt: i64) -> (r: i64)
    requires
        0 <= cd <= FX_ONE,
        0 <= speed,
        (speed as int) < 0x100000000,
        0 <= dt <= DT_LIMIT,
    ensures
        r as int == drag_factor(cd as int, speed as int, dt as int),
        0 <= r <= FX_ONE,
        cd >= 1 && speed >= 1 && dt >= 1 ==> r >= 1,
{
    proof {
        lemma_mul_fits(cd as int, speed as int, FX_ONE as int, 0x100000000);
        lemma_mul_fits(cd * speed, dt as int, 0x40000000000, DT_LIMIT as int);
    }
    let n: i64 = cd * speed * dt;
    proof {
        assert(n >= 0) by (nonlinear_arith)
            requires
                cd >= 0,
                speed >= 0,
                dt >= 0,
                n == cd * speed * dt,
        ;
        lemma_divt_bounds(n + 1048575, 1048576);
        if cd >= 1 && speed >= 1 && dt >= 1 {
            assert(n >= 1) by (nonlinear_arith)
                requires
                    cd >= 1,
                    speed >= 1,
                    dt >= 1,
                    n == cd * speed * dt,
            ;
            lemma_divt_ordered(1048576, n + 1048575, 1048576);
            assert(divt(1048576, 1048576) == 1);
        }
    }
    let q: i64 = div_trunc(n + 1048575, 1048576);
    if q > FX_ONE {
        FX_ONE
    } else {
        q
    }
}

/// Apply a drag factor to a velocity. Each component keeps its sign and does
/// not grow; a factor of one zeroes the velocity.
pub fn drag_vel(v: Vec2, f: i64) -> (r: Vec2)
    requires
        in_fx_vec(v),
        0 <= f <= FX_ONE,
    ensures
        r == spec_drag_vel(v, f as int),
        in_fx_vec(r),
        absi(r.x as int) <= absi(v.x as int),
        absi(r.z as int) <= absi(v.z as int),
{
    proof {
        lemma_mul_fits(v.x as int, (FX_ONE - f) as int, FX_LIMIT as int, FX_ONE as int);
        lemma_mul_fits(v.z as int, (FX_ONE - f) as int, FX_LIMIT as int, FX_ONE as int);
        lemma_drag_component(v.x as int, f as int);
        lemma_drag_component(v.z as int, f as int);
    }
    let t: i64 = FX_ONE - f;
    Vec2 { x: div_trunc(v.x * t, FX_ONE), z: div_trunc(v.z * t, FX_ONE) }
}

/// One drag-scaled component keeps its sign, never grows, and shrinks by at
/// least one raw step when the factor is at least one raw step.
pub proof fn lemma_drag_component(v: int, f: int)
    requires
        in_fx(v),
        0 <= f <= FX_ONE as int,
    ensures
        absi(divt(v * (FX_ONE - f), FX_ONE as int)) <= absi(v),
        v >= 0 ==> divt(v * (FX_ONE - f), FX_ONE as int) >= 0,
        v <= 0 ==> divt(v * (FX_ONE - f), FX_ONE as int) <= 0,
        f >= 1 && v != 0 ==> absi(divt(v * (FX_ONE - f), FX_ONE as int)) <= absi(v) - 1,
{
    let s = FX_ONE as int;
    assert(absi(v * (s - f)) == absi(v) * (s - f)) by (nonlinear_arith)
        requires
            0 <= s - f,
    ;
    assert(absi(v) * (s - f) <= absi(v) * s) by (nonlinear_arith)
        requires
            0 <= absi(v),
            s - f <= s,
    ;
    lemma_divt_le_factor(v * (s - f), s, absi(v));
    lemma_divt_bounds(v * (s - f), s);
    if v >= 0 {
        assert(v * (s - f) >= 0) by (nonlinear_arith)
            requires
                v >= 0,
                s - f >= 0,
        ;
    } else {
        assert(v * (s - f) <= 0) by (nonlinear_arith)
            requires
                v <= 0,
                s - f >= 0,
        ;
    }
    if f >= 1 && v != 0 {
        assert(absi(v) * (s - f) <= absi(v) * s - absi(v)) by (nonlinear_arith)
            requires
                f >= 1,
                absi(v) >= 1,
        ;
        assert(absi(v) * (s - f) <= absi(v) * s - 1);
        lemma_divt_ordered(absi(v) * (s - f), absi(v) * s - 1, s);
        assert((absi(v) * s - 1) / s == absi(v) - 1) by {
            assert((absi(v) - 1) * s + (s - 1) == absi(v) * s - 1) by (nonlinear_arith);
            vstd::arithmetic::div_mod::lemma_fundamental_div_mod_converse(
                absi(v) * s - 1,
                s,
                absi(v) - 1,
                s - 1,
            );
        }
        assert(divt(absi(v) * (s - f), s) <= absi(v) - 1);
        assert(absi(divt(v * (s - f), s)) == divt(absi(v * (s - f)), s)) by {
            if v < 0 {
                assert(v * (s - f) <= 0) by (nonlinear_arith)
                    requires
                        v <= 0,
                        s - f >= 0,
                ;
            }
        }
    }
}

/// A body at rest stays at rest: with zero velocity, zero acceleration and
/// zero accumulated force, one integration step changes nothing, whatever the
/// elapsed time.
pub proof fn lemma_rest_is_fixed(b: KinematicBody, dt: int)
    requires
        body_wf(b),
        0 <= dt <= DT_LIMIT,
        b.vel == (Vec2 { x: 0i64, z: 0i64 }),
        b.acc == (Vec2 { x: 0i64, z: 0i64 }),
        b.force == (Vec2 { x: 0i64, z: 0i64 }),
    ensures
        spec_body_step(b, dt) == b,
{
    let s = FX_ONE as int;
    vstd::arithmetic::div_mod::lemma_div_of0(b.mass as int);
    vstd::arithmetic::div_mod::lemma_div_of0(s);
    assert(spec_accel(b.force, b.mass as int) == b.acc);
    assert(mul_fx_exact(0, dt) == 0);
    let vel1 = vadd(b.vel, vscale(b.acc, dt));
    assert(vel1 == b.vel);
    assert(len_sq(vel1) == 0);
    assert(sqrt_floor(0) == 0);
    let f = drag_factor(b.drag as int, 0, dt);
    assert(b.drag as int * 0 * dt == 0) by (nonlinear_arith);
    assert(divc(0, (s * s) as int) == (s * s - 1) / (s * s));
    assert((s * s - 1) / (s * s) == 0) by {
        vstd::arithmetic::div_mod::lemma_basic_div(s * s - 1, s * s);
    }
    assert(f == 0);
    let vel2 = spec_drag_vel(vel1, f);
    assert(vel2 == b.vel);
    assert(mul_fx_exact(0, dt) == 0);
    let pos2 = vadd(b.pos, vscale(vel2, dt));
    assert(pos2 == b.pos);
}

/// A square never grows when the base shrinks in magnitude.
pub proof fn lemma_sq_monotone(a: int, b: int)
    requires
        absi(a) <= absi(b),
    ensures
        a * a <= b * b,
        absi(a) < absi(b) ==> a * a < b * b,
{
    assert(a * a == absi(a) * absi(a)) by (nonlinear_arith);
    assert(b * b == absi(b) * absi(b)) by (nonlinear_arith);
    assert(absi(a) * absi(a) <= absi(b) * absi(b)) by (nonlinear_arith)
        requires
            0 <= absi(a) <= absi(b),
    ;
    if absi(a) < absi(b) {
        assert(absi(a) * absi(a) < absi(b) * absi(b)) by (nonlinear_arith)
            requires
                0 <= absi(a) < absi(b),
        ;
    }
}

/// Drag strictly slows a moving body: with no accumulated force and a
/// positive drag coefficient, one step strictly shrinks the squared speed and
/// flips the sign of neither velocity component.
pub proof fn lemma_drag_slows(b: KinematicBody, dt: int)
    requires
        body_wf(b),
        1 <= dt <= DT_LIMIT,
        1 <= b.drag,
        b.force == (Vec2 { x: 0i64, z: 0i64 }),
        b.vel != (Vec2 { x: 0i64, z: 0i64 }),
    ensures
        len_sq(spec_body_step(b, dt).vel) < len_sq(b.vel),
        spec_body_step(b, dt).vel.x * b.vel.x >= 0,
        spec_body_step(b, dt).vel.z * b.vel.z >= 0,
{
    let s = FX_ONE as int;
    vstd::arithmetic::div_mod::lemma_div_of0(b.mass as int);
    vstd::arithmetic::div_mod::lemma_div_of0(s);
    assert(spec_accel(b.force, b.mass as int) == (Vec2 { x: 0i64, z: 0i64 }));
    assert(mul_fx_exact(0, dt) == 0);
    let vel1 = vadd(b.vel, vscale(spec_accel(b.force, b.mass as int), dt));
    assert(vel1 == b.vel);
    let q = len_sq(vel1);
    assert(q >= 1) by {
        crate::vec2::lemma_sq_bound(b.vel.x as int);
        crate::vec2::lemma_sq_bound(b.vel.z as int);
        if b.vel.x != 0 {
            assert(b.vel.x * b.vel.x >= 1) by (nonlinear_arith)
                requires
                    b.vel.x != 0,
            ;
        } else {
            assert(b.vel.z != 0);
            assert(b.vel.z * b.vel.z >= 1) by (nonlinear_arith)
                requires
                    b.vel.z != 0,
            ;
        }
    }
    let speed = vlen(vel1);
    assert(speed >= 1) by {
        crate::fx::lemma_sqrt_floor_bounds(q as nat);
        if speed == 0 {
            assert((sqrt_floor(q as nat) + 1) * (sqrt_floor(q as nat) + 1) == 1) by (nonlinear_arith)
                requires
                    sqrt_floor(q as nat) == 0,
            ;
            assert(q < 1);
        }
    }
    let f = drag_factor(b.drag as int, speed, dt);
    assert(1 <= f <= s) by {
        assert(b.drag as int * speed * dt >= 1) by (nonlinear_arith)
            requires
                b.drag as int >= 1,
                speed >= 1,
                dt >= 1,
        ;
        let n = b.drag as int * speed * dt;
        lemma_divt_ordered(s * s, n + s * s - 1, s * s);
        vstd::arithmetic::div_mod::lemma_div_by_self(s * s);
        lemma_divt_bounds(n + s * s - 1, s * s);
    }
    let vel2 = spec_drag_vel(vel1, f);
    lemma_drag_component(vel1.x as int, f);
    lemma_drag_component(vel1.z as int, f);
    if vel1.x == 0 {
        assert(0 * (s - f) == 0) by (nonlinear_arith);
        assert(vel2.x == 0);
    }
    if vel1.z == 0 {
        assert(0 * (s - f) == 0) by (nonlinear_arith);
        assert(vel2.z == 0);
    }
    lemma_sq_monotone(vel2.x as int, vel1.x as int);
    lemma_sq_monotone(vel2.z as int, vel1.z as int);
    if vel1.x != 0 {
        assert(absi(vel2.x as int) < absi(vel1.x as int));
    } else {
        assert(absi(vel2.z as int) < absi(vel1.z as int));
    }
    assert(len_sq(vel2) < len_sq(vel1));
    assert(vel2.x * vel1.x >= 0) by (nonlinear_arith)
        requires
            vel1.x >= 0 ==> vel2.x >= 0,
            vel1.x <= 0 ==> vel2.x <= 0,
    ;
    assert(vel2.z * vel1.z >= 0) by (nonlinear_arith)
        requires
            vel1.z >= 0 ==> vel2.z >= 0,
            vel1.z <= 0 ==> vel2.z <= 0,
    ;
}

impl KinematicBody {
    /// A body at rest at `pos` with the given mass and drag coefficient.
    pub fn new(pos: Vec2, mass: i64, drag: i64) -> (r: KinematicBody)
        requires
            in_fx_vec(pos),
            1 <= mass <= FX_LIMIT,
            0 <= drag <= FX_ONE,
        ensures
            r == (KinematicBody {
                pos,
                vel: Vec2 { x: 0i64, z: 0i64 },
                acc: Vec2 { x: 0i64, z: 0i64 },
                force: Vec2 { x: 0i64, z: 0i64 },
                mass,
                drag,
            }),
            body_wf(r),
    {
        KinematicBody {
            pos,
            vel: Vec2 { x: 0, z: 0 },
            acc: Vec2 { x: 0, z: 0 },
            force: Vec2 { x: 0, z: 0 },
            mass,
            drag,
        }
    }

    /// One integration step driven by the accumulated force; the force is
    /// consumed (reset to zero) by the step.
    pub fn integrate(&mut self, dt: i64)
        requires
            body_wf(*old(self)),
            0 <= dt <= DT_LIMIT,
        ensures
            *final(self) == spec_body_step(*old(self), dt as int),
            body_wf(*final(self)),
    {
        let acc = accel_from_force(self.force, self.mass);
        let vel1 = self.vel.add(acc.scale(dt));
        let speed: i64 = vel1.length();
        let f: i64 = drag_factor_exec(self.drag, speed, dt);
        let vel2 = drag_vel(vel1, f);
        let pos2 = self.pos.add(vel2.scale(dt));
        self.acc = acc;
        self.vel = vel2;
        self.pos = pos2;
        self.force = Vec2::zero();
    }
}

} // verus!
