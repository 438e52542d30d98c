//! Wave spawning and escalation.
//!
//! The wave counter is an explicit value owned by the simulation world, not
//! global state. When the mob registry empties, the next wave spawns
//! `wave_size(current)` mobs at uniformly random positions inside the
//! playfield and the counter increments once.

use vstd::prelude::*;
use crate::vec2::Vec2;
use crate::mob::{Mob, mob_wf, spec_mob_type, MOB_HEALTH, MOB_STRENGTH, MOB_MASS, DRAG_CONSTANT};

verus! {

/// Spawn coordinates are uniform in `[0, FIELD_SIZE)` on both axes (20.0).
pub const FIELD_SIZE: i64 = 20480;

/// The wave counter stays below this bound, so the squared spawn count of
/// every reachable wave fits the machine.
pub const WAVE_LIMIT: usize = 65536;

/// The wave counter: how many waves have been spawned so far.
#[derive(Clone, Copy, PartialEq, Eq, Structural, Debug)]
pub struct Wave {
    pub current: usize,
}

/// How many mobs the wave with this index spawns: the hand-tuned onramp `2`
/// then `3`, and from index two onward the square of the index.
pub open spec fn spec_wave_size(n: int) -> int {
    if n == 0 {
        2
    } else if n == 1 {
        3
    } else {
        n * n
    }
}

/// How many mobs the wave with this index spawns.
pub fn wave_size(n: usize) -> (r: usize)
    requires
        n * n <= usize::MAX,
    ensures
        r as int == spec_wave_size(n as int),
{
    if n == 0 {
        2
    } else if n == 1 {
        3
    } else {
        n * n
    }
}

/// A mob as the wave director spawns it: baseline health, strength and mass,
/// mob drag, the base colour of its strength, at rest with no accumulated
/// force, somewhere inside the playfield.
pub open spec fn spec_spawned_mob(m: Mob) -> bool {
    &&& m.health == MOB_HEALTH
    &&& m.strength == MOB_STRENGTH
    &&& m.body.mass == MOB_MASS
    &&& m.body.drag == DRAG_CONSTANT
    &&& m.body.vel == (Vec2 { x: 0i64, z: 0i64 })
    &&& m.body.acc == (Vec2 { x: 0i64, z: 0i64 })
    &&& m.body.force == (Vec2 { x: 0i64, z: 0i64 })
    &&& 0 <= m.body.pos.x < FIELD_SIZE
    &&& 0 <= m.body.pos.z < FIELD_SIZE
    &&& m.color == spec_mob_type(MOB_STRENGTH as int)
    &&& m.last_damaged.elapsed == 0
    &&& mob_wf(m)
}

/// One uniformly random raw coordinate in `[0, bound)`.
///
/// Relies on `rand::Rng::gen_range` over the half-open range `0..bound`:
/// rand's integer uniform sampler returns a value of that range and panics
/// only when the range is empty, which `bound >= 1` rules out.
#[verifier::external_body]
fn random_coord(bound: i64) -> (r: i64)
    requires
        bound >= 1,
    ensures
        0 <= r < bound,
{
    rand::Rng::gen_range(&mut rand::thread_rng(), 0..bound)
}

/// Spawn one wave's worth of mobs into the registry: `wave_size(wave_index)`
/// fresh baseline mobs at random playfield positions, appended in order;
/// every mob already present is untouched.
pub fn spawn_wave(mobs: &mut Vec<Mob>, wave_index: usize)
    requires
        wave_index < WAVE_LIMIT,
        forall|k: int| 0 <= k < old(mobs)@.len() ==> mob_wf(#[trigger] old(mobs)@[k]),
    ensures
        final(mobs)@.len() == old(mobs)@.len() + spec_wave_size(wave_index as int),
        forall|k: int| 0 <= k < old(mobs)@.len() ==> #[trigger] final(mobs)@[k] == old(mobs)@[k],
        forall|k: int| old(mobs)@.len() <= k < final(mobs)@.len()
            ==> spec_spawned_mob(#[trigger] final(mobs)@[k]),
        forall|k: int| 0 <= k < final(mobs)@.len() ==> mob_wf(#[trigger] final(mobs)@[k]),
{
    proof {
        assert((wave_index as int) * (wave_index as int) < 0x100000000)
            by (nonlinear_arith)
            requires
                0 <= wave_index as int,
                (wave_index as int) < 65536,
        ;
    }
    let count: usize = wave_size(wave_index);
    let ghost n0: int = mobs@.len() as int;
    let mut c: usize = 0;
    while c < count
        invariant
            c <= count,
            mobs@.len() == n0 + c as int,
            forall|k: int| 0 <= k < n0 ==> #[trigger] mobs@[k] == old(mobs)@[k],
            forall|k: int| n0 <= k < mobs@.len() ==> spec_spawned_mob(#[trigger] mobs@[k]),
            forall|k: int| 0 <= k < mobs@.len() ==> mob_wf(#[trigger] mobs@[k]),
            n0 == old(mobs)@.len(),
        decreases count - c,
    {
        let x: i64 = random_coord(FIELD_SIZE);
        let z: i64 = random_coord(FIELD_SIZE);
        let pos = Vec2::new(x, z);
        let m = Mob::new(pos, MOB_STRENGTH);
        mobs.push(m);
        c = c + 1;
    }
}

} // verus!
