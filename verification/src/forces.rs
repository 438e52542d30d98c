//! Force aggregation among mobs and from the player.
//!
//! Forces are computed in two phases, enforced by the signatures: `compute_forces`
//! reads an immutable snapshot of all mob positions and produces one net force
//! per mob; `apply_forces` then adds them into the mobs' force accumulators.
//! No position mutates while forces are being computed, so no mob's updated
//! position can leak into another mob's force.
//!
//! Per mob `i`, from the snapshot:
//! - attraction: for every other mob `j` within `MAX_ATTRACTION_DISTANCE`,
//!   add `pos_j - pos_i` (linear cohesion, unscaled by distance);
//! - repulsion: for every other mob `j` regardless of distance, subtract
//!   `REPEL_CONSTANT / (pos_j - pos_i)` componentwise, where each component
//!   of the separation is kept at least `REPEL_EPSILON` in magnitude (signed),
//!   so coincident positions divide by the epsilon instead of by zero;
//! - player pull: add `player_pos - pos_i`, the pull toward the nearest
//!   player; a session has one player, so that is always this one.

use vstd::prelude::*;
use crate::fx::{
    FX_ONE, in_fx, divt, absi,
    lemma_divt_bounds,
    div_trunc,
};
use crate::vec2::{Vec2, in_fx_vec, vadd, vsub, len_sq};
use crate::mob::{Mob, mob_wf};
use crate::body::KinematicBody;

verus! {

/// Mobs farther apart than this exert no attraction on each other (10.0).
pub const MAX_ATTRACTION_DISTANCE: i64 = 10240;

/// Strength of the inter-mob repulsion (3.0).
pub const REPEL_CONSTANT: i64 = 3072;

/// Minimum separation per axis used by the repulsion term (1/64 of a unit):
/// a closer or coincident pair repels as if it were this far apart.
pub const REPEL_EPSILON: i64 = 16;

/// A separation component, pushed away from zero to at least the epsilon,
/// keeping its sign (a zero component counts as positive).
pub open spec fn eps_clamp(c: int) -> int {
    if c >= 0 {
        if c < REPEL_EPSILON as int {
            REPEL_EPSILON as int
        } else {
            c
        }
    } else {
        if c > -(REPEL_EPSILON as int) {
            -(REPEL_EPSILON as int)
        } else {
            c
        }
    }
}

/// One component of the repulsion from a separation component:
/// `REPEL_CONSTANT / c` in fixed point, over the epsilon-clamped separation.
pub open spec fn repel_term(c: int) -> int {
    let e = eps_clamp(c);
    if e > 0 {
        divt((REPEL_CONSTANT * FX_ONE) as int, e)
    } else {
        -divt((REPEL_CONSTANT * FX_ONE) as int, -e)
    }
}

/// The attraction of mob `j` on mob `i`: their separation vector when within
/// the attraction range, zero otherwise.
pub open spec fn spec_attraction(pi: Vec2, pj: Vec2) -> Vec2 {
    if len_sq(vsub(pj, pi)) < (MAX_ATTRACTION_DISTANCE * MAX_ATTRACTION_DISTANCE) as int {
        vsub(pj, pi)
    } else {
        Vec2 { x: 0, z: 0 }
    }
}

/// The repulsion of mob `j` on mob `i`, componentwise over the clamped
/// separation.
pub open spec fn spec_repulsion(pi: Vec2, pj: Vec2) -> Vec2 {
    Vec2 {
        x: repel_term(vsub(pj, pi).x as int) as i64,
        z: repel_term(vsub(pj, pi).z as int) as i64,
    }
}

/// A running force with one more pair folded in: add the attraction, then
/// subtract the repulsion.
pub open spec fn spec_accumulate_pair(f: Vec2, pi: Vec2, pj: Vec2) -> Vec2 {
    vsub(vadd(f, spec_attraction(pi, pj)), spec_repulsion(pi, pj))
}

/// The inter-mob force on mob `i` from the snapshot's first `k` mobs
/// (skipping `i` itself), folded in index order.
pub open spec fn spec_inter_mob_force(ps: Seq<Vec2>, i: int, k: int) -> Vec2
    decreases k,
{
    if k <= 0 {
        Vec2 { x: 0, z: 0 }
    } else {
        let prev = spec_inter_mob_force(ps, i, k - 1);
        if k - 1 == i {
            prev
        } else {
            spec_accumulate_pair(prev, ps[i], ps[k - 1])
        }
    }
}

/// The net force on mob `i`: all inter-mob contributions, then the pull
/// toward the player.
pub open spec fn spec_net_force(ps: Seq<Vec2>, i: int, ppos: Vec2) -> Vec2 {
    vadd(spec_inter_mob_force(ps, i, ps.len() as int), vsub(ppos, ps[i]))
}

/// A mob with a force folded into its accumulator; nothing else changes.
pub open spec fn spec_mob_with_force(m: Mob, f: Vec2) -> Mob {
    Mob { body: KinematicBody { force: vadd(m.body.force, f), ..m.body }, ..m }
}

/// The repulsion term is defined and bounded for every separation, including
/// zero: the clamped separation never vanishes, so the division is by at
/// least the epsilon and the term is at most `REPEL_CONSTANT / REPEL_EPSILON`.
pub proof fn lemma_repulsion_singularity_safe(c: int)
    ensures
        eps_clamp(c) != 0,
        absi(eps_clamp(c)) >= REPEL_EPSILON as int,
        absi(repel_term(c)) <= 196608,
        c >= 0 ==> repel_term(c) >= 0,
        c < 0 ==> repel_term(c) <= 0,
{
    let e = eps_clamp(c);
    let n = (REPEL_CONSTANT * FX_ONE) as int;
    if e > 0 {
        lemma_divt_bounds(n, e);
        vstd::arithmetic::div_mod::lemma_div_is_ordered_by_denominator(n, REPEL_EPSILON as int, e);
    } else {
        lemma_divt_bounds(n, -e);
        vstd::arithmetic::div_mod::lemma_div_is_ordered_by_denominator(n, REPEL_EPSILON as int, -e);
    }
}

/// The pairwise force is a stored (finite) value for every pair of positions,
/// coincident ones included; so is every fold of pairwise forces.
pub proof fn lemma_pair_force_finite(f: Vec2, pi: Vec2, pj: Vec2)
    ensures
        in_fx_vec(spec_accumulate_pair(f, pi, pj)),
{
}

/// One component of the repulsion vector, computed executably.
fn repel_component(c: i64) -> (r: i64)
    requires
        in_fx(c as int),
    ensures
        r as int == repel_term(c as int),
        absi(r as int) <= 196608,
{
    proof {
        lemma_repulsion_singularity_safe(c as int);
    }
    let e: i64 = if c >= 0 {
        if c < REPEL_EPSILON {
            REPEL_EPSILON
        } else {
            c
        }
    } else {
        if c > -REPEL_EPSILON {
            -REPEL_EPSILON
        } else {
            c
        }
    };
    if e > 0 {
        div_trunc(REPEL_CONSTANT * FX_ONE, e)
    } else {
        -div_trunc(REPEL_CONSTANT * FX_ONE, -e)
    }
}

/// Net force per mob from an immutable snapshot of all mob positions and the
/// player position. Entry `i` of the result is exactly the attraction,
/// repulsion and player-pull sum for snapshot entry `i`; no position is
/// mutated while forces are computed.
pub fn compute_forces(positions: &Vec<Vec2>, player_pos: Vec2) -> (forces: Vec<Vec2>)
    requires
        forall|k: int| 0 <= k < positions@.len() ==> in_fx_vec(#[trigger] positions@[k]),
        in_fx_vec(player_pos),
    ensures
        forces@.len() == positions@.len(),
        forall|k: int| 0 <= k < forces@.len()
            ==> #[trigger] forces@[k] == spec_net_force(positions@, k, player_pos),
        forall|k: int| 0 <= k < forces@.len() ==> in_fx_vec(#[trigger] forces@[k]),
{
    let n: usize = positions.len();
    let mut forces: Vec<Vec2> = Vec::new();
    let mut i: usize = 0;
    while i < n
        invariant
            n == positions@.len(),
            forall|k: int| 0 <= k < n ==> in_fx_vec(#[trigger] positions@[k]),
            in_fx_vec(player_pos),
            forces@.len() == i as int,
            i <= n,
            forall|k: int| 0 <= k < i as int
                ==> #[trigger] forces@[k] == spec_net_force(positions@, k, player_pos),
        decreases n - i,
    {
        let mut f = Vec2::zero();
        let pi: Vec2 = positions[i];
        let mut j: usize = 0;
        while j < n
            invariant
                n == positions@.len(),
                forall|k: int| 0 <= k < n ==> in_fx_vec(#[trigger] positions@[k]),
                i < n,
                j <= n,
                pi == positions@[i as int],
                f == spec_inter_mob_force(positions@, i as int, j as int),
                in_fx_vec(f),
            decreases n - j,
        {
            if j != i {
                let pj: Vec2 = positions[j];
                let d = pj.sub(pi);
                let att: Vec2 = if d.length_squared()
                    < MAX_ATTRACTION_DISTANCE * MAX_ATTRACTION_DISTANCE {
                    d
                } else {
                    Vec2::zero()
                };
                proof {
                    lemma_repulsion_singularity_safe(d.x as int);
                    lemma_repulsion_singularity_safe(d.z as int);
                }
                let rep = Vec2 { x: repel_component(d.x), z: repel_component(d.z) };
                f = f.add(att).sub(rep);
            }
            j = j + 1;
        }
        let pull = player_pos.sub(pi);
        f = f.add(pull);
        forces.push(f);
        i = i + 1;
    }
    forces
}

/// Add one computed force into each mob's accumulator. The registry's length
/// and every other field of every mob are unchanged.
pub fn apply_forces(mobs: &mut Vec<Mob>, forces: &Vec<Vec2>)
    requires
        old(mobs)@.len() == forces@.len(),
        forall|k: int| 0 <= k < old(mobs)@.len() ==> mob_wf(#[trigger] old(mobs)@[k]),
        forall|k: int| 0 <= k < forces@.len() ==> in_fx_vec(#[trigger] forces@[k]),
    ensures
        final(mobs)@.len() == old(mobs)@.len(),
        forall|k: int| 0 <= k < final(mobs)@.len()
            ==> #[trigger] final(mobs)@[k] == spec_mob_with_force(old(mobs)@[k], forces@[k]),
        forall|k: int| 0 <= k < final(mobs)@.len() ==> mob_wf(#[trigger] final(mobs)@[k]),
{
    let n: usize = mobs.len();
    let mut i: usize = 0;
    while i < n
        invariant
            n == mobs@.len(),
            mobs@.len() == old(mobs)@.len(),
            old(mobs)@.len() == forces@.len(),
            i <= n,
            forall|k: int| 0 <= k < n ==> mob_wf(#[trigger] old(mobs)@[k]),
            forall|k: int| 0 <= k < forces@.len() ==> in_fx_vec(#[trigger] forces@[k]),
            forall|k: int| i as int <= k < n ==> #[trigger] mobs@[k] == old(mobs)@[k],
            forall|k: int| 0 <= k < i as int
                ==> #[trigger] mobs@[k] == spec_mob_with_force(old(mobs)@[k], forces@[k]),
        decreases n - i,
    {
        let mut m: Mob = mobs[i];
        m.body.force = m.body.force.add(forces[i]);
        mobs.set(i, m);
        i = i + 1;
    }
}

} // verus!
