//! Hostile entities.
//!
//! A mob is a kinematic body with health, a strength (which is also its
//! visual scale factor), a base colour and a damage-flash timer. Mobs are
//! created by the wave director, pushed around by the force aggregator,
//! damaged by the combat resolver and removed once their health reaches zero.

use vstd::prelude::*;
use crate::fx::{
    FX_ONE, FX_LIMIT, DT_LIMIT, in_fx, clamp_fx, divt,
    lemma_divt_bounds, lemma_divt_le_factor,
    sub_fx, div_trunc,
};
use crate::vec2::{Vec2, in_fx_vec};
use crate::body::{KinematicBody, body_wf, spec_body_step};
use crate::timer::{Stopwatch, stopwatch_wf, spec_advance};
use crate::color::{Rgb, rgb_wf, attacked_rgb, spec_color_lerp, attacked_color, color_lerp};

verus! {

/// Drag coefficient of every mob (0.03 in fixed point).
pub const DRAG_CONSTANT: i64 = 31;

/// How long a damaged mob's colour flashes, in raw seconds (0.5 s).
pub const ATTACKED_FLASH_TIME: i64 = 512;

/// Baseline health of a spawned mob (10.0).
pub const MOB_HEALTH: i64 = 10240;

/// Baseline strength of a spawned mob (1.0).
pub const MOB_STRENGTH: i64 = 1024;

/// Baseline mass of a spawned mob (1.0).
pub const MOB_MASS: i64 = 1024;

/// One hostile entity.
#[derive(Clone, Copy, PartialEq, Eq, Structural, Debug)]
pub struct Mob {
    pub body: KinematicBody,
    pub health: i64,
    pub strength: i64,
    pub color: Rgb,
    pub last_damaged: Stopwatch,
}

/// The body is well-formed, the scalars are stored values, strength is
/// nonnegative and the colour and flash timer are valid.
pub open spec fn mob_wf(m: Mob) -> bool {
    &&& body_wf(m.body)
    &&& in_fx(m.health as int)
    &&& 0 <= m.strength <= FX_LIMIT
    &&& rgb_wf(m.color)
    &&& stopwatch_wf(m.last_damaged)
}

/// One integration tick of a mob: the body integrates under its accumulated
/// force and the damage-flash timer advances.
pub open spec fn spec_mob_update(m: Mob, dt: int) -> Mob {
    Mob {
        body: spec_body_step(m.body, dt),
        last_damaged: spec_advance(m.last_damaged, dt),
        ..m
    }
}

/// A damaged mob: health drops by the given amount (saturating) and the
/// damage-flash timer restarts.
pub open spec fn spec_mob_damage(m: Mob, amount: int) -> Mob {
    Mob {
        health: clamp_fx(m.health - amount) as i64,
        last_damaged: Stopwatch { elapsed: 0 },
        ..m
    }
}

/// Base colour of a mob of the given strength: plain white below strength
/// one, faint red below two, full red from two upward.
pub open spec fn spec_mob_type(strength: int) -> Rgb {
    let t = strength / (FX_ONE as int);
    if t < 1 {
        Rgb { r: 1024, g: 1024, b: 1024 }
    } else if t < 2 {
        Rgb { r: 1024, g: 922, b: 922 }
    } else {
        Rgb { r: 1024, g: 614, b: 614 }
    }
}

/// The colour the render layer shows: within `ATTACKED_FLASH_TIME` of the
/// last damage the base colour is blended from the attacked flash colour,
/// linearly by the elapsed fraction; afterwards it is the base colour.
pub open spec fn spec_render_color(m: Mob) -> Rgb {
    if m.last_damaged.elapsed < ATTACKED_FLASH_TIME {
        spec_color_lerp(
            attacked_rgb(),
            m.color,
            divt(m.last_damaged.elapsed * FX_ONE, ATTACKED_FLASH_TIME as int),
        )
    } else {
        m.color
    }
}

/// Base colour of a mob of the given strength.
pub fn get_mob_type(strength: i64) -> (c: Rgb)
    requires
        0 <= strength,
    ensures
        c == spec_mob_type(strength as int),
        rgb_wf(c),
{
    let t: i64 = div_trunc(strength, FX_ONE);
    if t < 1 {
        Rgb { r: 1024, g: 1024, b: 1024 }
    } else if t < 2 {
        Rgb { r: 1024, g: 922, b: 922 }
    } else {
        Rgb { r: 1024, g: 614, b: 614 }
    }
}

impl Mob {
    /// A freshly spawned mob at `pos` with the given strength: baseline
    /// health and mass, mob drag, base colour from the strength, at rest,
    /// with no damage recorded.
    pub fn new(pos: Vec2, strength: i64) -> (m: Mob)
        requires
            in_fx_vec(pos),
            0 <= strength <= FX_LIMIT,
        ensures
            m == (Mob {
                body: KinematicBody {
                    pos,
                    vel: Vec2 { x: 0i64, z: 0i64 },
                    acc: Vec2 { x: 0i64, z: 0i64 },
                    force: Vec2 { x: 0i64, z: 0i64 },
                    mass: MOB_MASS,
                    drag: DRAG_CONSTANT,
                },
                health: MOB_HEALTH,
                strength,
                color: spec_mob_type(strength as int),
                last_damaged: Stopwatch { elapsed: 0i64 },
            }),
            mob_wf(m),
    {
        Mob {
            body: KinematicBody::new(pos, MOB_MASS, DRAG_CONSTANT),
            health: MOB_HEALTH,
            strength,
            color: get_mob_type(strength),
            last_damaged: Stopwatch::new(),
        }
    }

    /// One integration tick: apply the accumulated force, advance the motion
    /// and the damage-flash timer, reset the force.
    pub fn update(&mut self, dt: i64)
        requires
            mob_wf(*old(self)),
            0 <= dt <= DT_LIMIT,
        ensures
            *final(self) == spec_mob_update(*old(self), dt as int),
            mob_wf(*final(self)),
    {
        self.body.integrate(dt);
        self.last_damaged.advance(dt);
    }

    /// Take damage: health drops (saturating) and the flash timer restarts.
    /// Health may go below zero; the registry removes such mobs at the end of
    /// the tick.
    pub fn damage(&mut self, amount: i64)
        requires
            mob_wf(*old(self)),
            0 <= amount <= FX_LIMIT,
        ensures
            *final(self) == spec_mob_damage(*old(self), amount as int),
            mob_wf(*final(self)),
    {
        self.health = sub_fx(self.health, amount);
        self.last_damaged.reset();
    }

    /// The colour the render layer shows this tick.
    pub fn render_color(&self) -> (c: Rgb)
        requires
            mob_wf(*self),
        ensures
            c == spec_render_color(*self),
            rgb_wf(c),
    {
        let elapsed: i64 = self.last_damaged.elapsed();
        if elapsed < ATTACKED_FLASH_TIME {
            proof {
                lemma_divt_bounds(elapsed * FX_ONE, ATTACKED_FLASH_TIME as int);
                lemma_divt_le_factor(
                    elapsed * FX_ONE,
                    ATTACKED_FLASH_TIME as int,
                    FX_ONE as int,
                );
            }
            let v: i64 = div_trunc(elapsed * FX_ONE, ATTACKED_FLASH_TIME);
            color_lerp(attacked_color(), self.color, v)
        } else {
            self.color
        }
    }
}

} // verus!
