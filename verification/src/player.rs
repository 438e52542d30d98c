//! The player and its projectiles.
//!
//! The player's acceleration is not physical: it points from the player to
//! the commanded target position, unscaled, so farther targets pull harder.
//! Its damping coefficient grows toward one near the target and relaxes
//! toward the base value far away, which brakes the approach instead of
//! letting it oscillate. Projectiles accelerate along a homing direction set
//! each tick from the live mob positions.

use vstd::prelude::*;
use crate::fx::{
    FX_ONE, FX_LIMIT, DT_LIMIT, in_fx, clamp_fx, divt, absi,
    lemma_divt_bounds, lemma_divt_le_factor,
    div_trunc,
};
use crate::vec2::{Vec2, in_fx_vec, vadd, vsub, vscale, len_sq, dist_sq};
use crate::body::{
    KinematicBody, body_wf, drag_factor, spec_drag_vel, spec_glide_vel,
    lemma_drag_factor_bounds, lemma_drag_component,
    drag_factor_exec, drag_vel,
};
use crate::timer::{Stopwatch, stopwatch_wf, spec_advance};

verus! {

/// Base damping coefficient of the player and of projectiles (0.04).
pub const BASE_CD: i64 = 41;

/// Health of a freshly spawned player (100.0).
pub const PLAYER_HEALTH: i64 = 102400;

/// Factor applied to a projectile's homing acceleration (5.0).
pub const PROJECTILE_SPEED: i64 = 5120;

/// Damage a projectile deals on contact (3.0).
pub const PROJECTILE_DAMAGE: i64 = 3072;

/// A projectile expires this many raw seconds after it is fired (10.0).
pub const PROJECTILE_LIFETIME: i64 = 10240;

/// One projectile is fired each time this period elapses (0.3 s).
pub const PROJECTILE_SPAWN_PERIOD: i64 = 307;

/// The player entity.
#[derive(Clone, Copy, PartialEq, Eq, Structural, Debug)]
pub struct Player {
    pub body: KinematicBody,
    pub health: i64,
    pub target_position: Vec2,
    pub last_jump: Stopwatch,
}

/// The body is well-formed and health, target and jump timer are valid.
pub open spec fn player_wf(p: Player) -> bool {
    &&& body_wf(p.body)
    &&& in_fx(p.health as int)
    &&& in_fx_vec(p.target_position)
    &&& stopwatch_wf(p.last_jump)
}

/// The distance-aware damping coefficient:
/// `(1 - base) / (1 + |target - pos|^2) + base`, which approaches one at the
/// target and the base coefficient far away.
pub open spec fn spec_player_cd(target: Vec2, pos: Vec2) -> int {
    let lsq = dist_sq(target, pos);
    let denom = FX_ONE as int + divt(lsq, FX_ONE as int);
    divt((FX_ONE - BASE_CD) as int * FX_ONE as int, denom) + BASE_CD as int
}

/// One tick of the player: accelerate toward the target, damp with the
/// distance-aware coefficient, advance the position.
pub open spec fn spec_player_update(p: Player, dt: int) -> Player {
    let acc = vsub(p.target_position, p.body.pos);
    let vel1 = vadd(p.body.vel, vscale(acc, dt));
    let cd = spec_player_cd(p.target_position, p.body.pos);
    let vel2 = spec_glide_vel(vel1, cd, dt);
    let pos2 = vadd(p.body.pos, vscale(vel2, dt));
    Player {
        body: KinematicBody { pos: pos2, vel: vel2, acc, ..p.body },
        ..p
    }
}

/// The damping coefficient is always a fraction in `[BASE_CD, FX_ONE]`.
pub proof fn lemma_player_cd_bounds(target: Vec2, pos: Vec2)
    requires
        in_fx_vec(target),
        in_fx_vec(pos),
    ensures
        BASE_CD as int <= spec_player_cd(target, pos) <= FX_ONE as int,
{
    let lsq = dist_sq(target, pos);
    crate::vec2::lemma_sq_bound(vsub(target, pos).x as int);
    crate::vec2::lemma_sq_bound(vsub(target, pos).z as int);
    lemma_divt_bounds(lsq, FX_ONE as int);
    let denom = FX_ONE as int + divt(lsq, FX_ONE as int);
    lemma_divt_bounds((FX_ONE - BASE_CD) as int * FX_ONE as int, denom);
    vstd::arithmetic::div_mod::lemma_div_is_ordered_by_denominator(
        (FX_ONE - BASE_CD) as int * FX_ONE as int,
        FX_ONE as int,
        denom,
    );
}

/// A player as spawned at `pos`: at rest, targeting its own position, with
/// full health.
pub open spec fn spec_new_player(pos: Vec2) -> Player {
    Player {
        body: KinematicBody {
            pos,
            vel: Vec2 { x: 0, z: 0 },
            acc: Vec2 { x: 0, z: 0 },
            force: Vec2 { x: 0, z: 0 },
            mass: FX_ONE,
            drag: BASE_CD,
        },
        health: PLAYER_HEALTH,
        target_position: pos,
        last_jump: Stopwatch { elapsed: 0 },
    }
}

impl Player {
    /// A freshly spawned player at `pos`, at rest, targeting its own
    /// position, with full health.
    pub fn new(pos: Vec2) -> (p: Player)
        requires
            in_fx_vec(pos),
        ensures
            p == spec_new_player(pos),
            player_wf(p),
    {
        Player {
            body: KinematicBody::new(pos, FX_ONE, BASE_CD),
            health: PLAYER_HEALTH,
            target_position: pos,
            last_jump: Stopwatch::new(),
        }
    }

    /// Command a new destination (set externally from a click).
    pub fn set_target(&mut self, target: Vec2)
        requires
            player_wf(*old(self)),
            in_fx_vec(target),
        ensures
            *final(self) == (Player { target_position: target, ..*old(self) }),
            player_wf(*final(self)),
    {
        self.target_position = target;
    }

    /// One tick of target-seeking motion.
    pub fn update(&mut self, dt: i64)
        requires
            player_wf(*old(self)),
            0 <= dt <= DT_LIMIT,
        ensures
            *final(self) == spec_player_update(*old(self), dt as int),
            player_wf(*final(self)),
    {
        let acc = self.target_position.sub(self.body.pos);
        let vel1 = self.body.vel.add(acc.scale(dt));
        let lsq: i64 = self.target_position.distance_squared(self.body.pos);
        let denom: i64 = FX_ONE + div_trunc(lsq, FX_ONE);
        proof {
            lemma_divt_bounds(lsq as int, FX_ONE as int);
            lemma_player_cd_bounds(self.target_position, self.body.pos);
        }
        let cd: i64 = div_trunc((FX_ONE - BASE_CD) * FX_ONE, denom) + BASE_CD;
        let speed: i64 = vel1.length();
        let f: i64 = drag_factor_exec(cd, speed, dt);
        let vel2 = drag_vel(vel1, f);
        let pos2 = self.body.pos.add(vel2.scale(dt));
        self.body.acc = acc;
        self.body.vel = vel2;
        self.body.pos = pos2;
    }
}

/// One axis of a from-rest seek step: the position moves toward the target
/// and never overshoots it, so the axis distance to the target cannot grow.
proof fn lemma_seek_axis(tx: int, px: int, dt: int, f: int)
    requires
        in_fx(tx),
        in_fx(px),
        0 <= dt <= FX_ONE as int,
        0 <= f <= FX_ONE as int,
    ensures
        ({
            let s = FX_ONE as int;
            let accx = clamp_fx(tx - px);
            let vel1x = clamp_fx(divt(accx * dt, s));
            let vel2x = divt(vel1x * (s - f), s);
            let movex = clamp_fx(divt(vel2x * dt, s));
            let pos2x = clamp_fx(px + movex);
            absi(clamp_fx(tx - pos2x)) <= absi(clamp_fx(tx - px))
        }),
{
    let s = FX_ONE as int;
    let dx = tx - px;
    let accx = clamp_fx(dx);
    assert(absi(accx) <= absi(dx));
    assert(absi(accx * dt) <= absi(accx) * s) by (nonlinear_arith)
        requires
            0 <= dt <= s,
    ;
    lemma_divt_le_factor(accx * dt, s, absi(accx));
    lemma_divt_bounds(accx * dt, s);
    if accx >= 0 {
        assert(accx * dt >= 0) by (nonlinear_arith)
            requires
                accx >= 0,
                dt >= 0,
        ;
    } else {
        assert(accx * dt <= 0) by (nonlinear_arith)
            requires
                accx <= 0,
                dt >= 0,
        ;
    }
    let vel1x = clamp_fx(divt(accx * dt, s));
    assert(absi(vel1x) <= absi(accx));
    assert(dx >= 0 ==> vel1x >= 0);
    assert(dx <= 0 ==> vel1x <= 0);
    lemma_drag_component(vel1x, f);
    let vel2x = divt(vel1x * (s - f), s);
    assert(absi(vel2x) <= absi(vel1x));
    assert(absi(vel2x * dt) <= absi(vel2x) * s) by (nonlinear_arith)
        requires
            0 <= dt <= s,
    ;
    lemma_divt_le_factor(vel2x * dt, s, absi(vel2x));
    lemma_divt_bounds(vel2x * dt, s);
    if vel2x >= 0 {
        assert(vel2x * dt >= 0) by (nonlinear_arith)
            requires
                vel2x >= 0,
                dt >= 0,
        ;
    } else {
        assert(vel2x * dt <= 0) by (nonlinear_arith)
            requires
                vel2x <= 0,
                dt >= 0,
        ;
    }
    let movex = clamp_fx(divt(vel2x * dt, s));
    assert(absi(movex) <= absi(dx));
    assert(dx >= 0 ==> 0 <= movex <= dx);
    assert(dx <= 0 ==> dx <= movex <= 0);
    let pos2x = clamp_fx(px + movex);
    assert(pos2x == px + movex);
    assert(absi(tx - pos2x) <= absi(tx - px));
}

/// From rest, one seek tick with `dt` at most one second never increases the
/// squared distance between the player and its commanded target.
pub proof fn lemma_seek_step_from_rest(p: Player, dt: int)
    requires
        player_wf(p),
        0 <= dt <= FX_ONE as int,
        p.body.vel == (Vec2 { x: 0i64, z: 0i64 }),
    ensures
        len_sq(vsub(p.target_position, spec_player_update(p, dt).body.pos))
            <= len_sq(vsub(p.target_position, p.body.pos)),
{
    let s = FX_ONE as int;
    let t = p.target_position;
    let pos = p.body.pos;
    let acc = vsub(t, pos);
    let vel1 = vadd(p.body.vel, vscale(acc, dt));
    assert(vel1.x as int == clamp_fx(divt(acc.x * dt, s)));
    assert(vel1.z as int == clamp_fx(divt(acc.z * dt, s)));
    let cd = spec_player_cd(t, pos);
    lemma_player_cd_bounds(t, pos);
    let f = drag_factor(cd, crate::vec2::vlen(vel1), dt);
    lemma_drag_factor_bounds(cd, crate::vec2::vlen(vel1), dt);
    lemma_drag_component(vel1.x as int, f);
    lemma_drag_component(vel1.z as int, f);
    let vel2 = spec_drag_vel(vel1, f);
    assert(vel2.x as int == divt(vel1.x * (s - f), s));
    assert(vel2.z as int == divt(vel1.z * (s - f), s));
    let pos2 = vadd(pos, vscale(vel2, dt));
    lemma_seek_axis(t.x as int, pos.x as int, dt, f);
    lemma_seek_axis(t.z as int, pos.z as int, dt, f);
    let newd = vsub(t, pos2);
    let oldd = vsub(t, pos);
    crate::body::lemma_sq_monotone(newd.x as int, oldd.x as int);
    crate::body::lemma_sq_monotone(newd.z as int, oldd.z as int);
}

/// A player resting on its target stays exactly there: with zero velocity
/// and the target at the player's own position, one seek tick moves nothing.
pub proof fn lemma_player_at_target_rests(p: Player, dt: int)
    requires
        player_wf(p),
        0 <= dt <= DT_LIMIT,
        p.body.vel == (Vec2 { x: 0i64, z: 0i64 }),
        p.target_position == p.body.pos,
    ensures
        spec_player_update(p, dt).body.pos == p.body.pos,
        spec_player_update(p, dt).body.vel == p.body.vel,
{
    let s = FX_ONE as int;
    vstd::arithmetic::div_mod::lemma_div_of0(s);
    let acc = vsub(p.target_position, p.body.pos);
    assert(acc == (Vec2 { x: 0i64, z: 0i64 }));
    assert(crate::fx::mul_fx_exact(0, dt) == 0);
    let vel1 = vadd(p.body.vel, vscale(acc, dt));
    assert(vel1 == p.body.vel);
    assert(len_sq(vel1) == 0);
    assert(crate::fx::sqrt_floor(0) == 0);
    let cd = spec_player_cd(p.target_position, p.body.pos);
    lemma_player_cd_bounds(p.target_position, p.body.pos);
    let f = drag_factor(cd, 0, dt);
    assert(cd * 0 * dt == 0) by (nonlinear_arith);
    assert((s * s - 1) / (s * s) == 0) by {
        vstd::arithmetic::div_mod::lemma_basic_div(s * s - 1, s * s);
    }
    assert(f == 0);
    let vel2 = spec_drag_vel(vel1, f);
    assert(vel2 == p.body.vel);
    let pos2 = vadd(p.body.pos, vscale(vel2, dt));
    assert(pos2 == p.body.pos);
}

/// A player-fired projectile.
#[derive(Clone, Copy, PartialEq, Eq, Structural, Debug)]
pub struct Projectile {
    pub body: KinematicBody,
    pub damage: i64,
    pub lifetime: Stopwatch,
}

/// The body is well-formed, the damage is a nonnegative stored value and the
/// lifetime accumulator is valid.
pub open spec fn projectile_wf(pr: Projectile) -> bool {
    &&& body_wf(pr.body)
    &&& 0 <= pr.damage <= FX_LIMIT
    &&& stopwatch_wf(pr.lifetime)
}

/// A projectile whose lifetime has fully elapsed.
pub open spec fn projectile_expired(pr: Projectile) -> bool {
    pr.lifetime.elapsed >= PROJECTILE_LIFETIME
}

/// One tick of a projectile: accelerate along the homing direction scaled by
/// the projectile speed, damp with the base coefficient, advance the position
/// and the lifetime.
pub open spec fn spec_projectile_update(pr: Projectile, dt: int) -> Projectile {
    let vel1 = vadd(pr.body.vel, vscale(vscale(pr.body.acc, dt), PROJECTILE_SPEED as int));
    let vel2 = spec_glide_vel(vel1, BASE_CD as int, dt);
    let pos2 = vadd(pr.body.pos, vscale(vel2, dt));
    Projectile {
        body: KinematicBody { pos: pos2, vel: vel2, ..pr.body },
        lifetime: spec_advance(pr.lifetime, dt),
        ..pr
    }
}

/// A projectile as fired from `pos`: at rest, with the fixed damage and a
/// fresh lifetime.
pub open spec fn spec_new_projectile(pos: Vec2) -> Projectile {
    Projectile {
        body: KinematicBody {
            pos,
            vel: Vec2 { x: 0, z: 0 },
            acc: Vec2 { x: 0, z: 0 },
            force: Vec2 { x: 0, z: 0 },
            mass: FX_ONE,
            drag: BASE_CD,
        },
        damage: PROJECTILE_DAMAGE,
        lifetime: Stopwatch { elapsed: 0 },
    }
}

impl Projectile {
    /// A projectile fired from `pos`: at rest, with the fixed damage and a
    /// fresh lifetime.
    pub fn new(pos: Vec2) -> (pr: Projectile)
        requires
            in_fx_vec(pos),
        ensures
            pr == spec_new_projectile(pos),
            projectile_wf(pr),
    {
        Projectile {
            body: KinematicBody::new(pos, FX_ONE, BASE_CD),
            damage: PROJECTILE_DAMAGE,
            lifetime: Stopwatch::new(),
        }
    }

    /// Point the homing acceleration for this tick.
    pub fn set_homing(&mut self, acc: Vec2)
        requires
            projectile_wf(*old(self)),
            in_fx_vec(acc),
        ensures
            *final(self) == (Projectile {
                body: KinematicBody { acc, ..old(self).body },
                ..*old(self)
            }),
            projectile_wf(*final(self)),
    {
        self.body.acc = acc;
    }

    /// One tick of homing motion; the lifetime advances by `dt`.
    pub fn update(&mut self, dt: i64)
        requires
            projectile_wf(*old(self)),
            0 <= dt <= DT_LIMIT,
        ensures
            *final(self) == spec_projectile_update(*old(self), dt as int),
            projectile_wf(*final(self)),
    {
        let vel1 = self.body.vel.add(self.body.acc.scale(dt).scale(PROJECTILE_SPEED));
        let speed: i64 = vel1.length();
        let f: i64 = drag_factor_exec(BASE_CD, speed, dt);
        let vel2 = drag_vel(vel1, f);
        let pos2 = self.body.pos.add(vel2.scale(dt));
        self.body.vel = vel2;
        self.body.pos = pos2;
        self.lifetime.advance(dt);
    }
}

} // verus!
