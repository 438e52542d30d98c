//! Combat resolution.
//!
//! Two independent proximity checks per tick, both over post-integration
//! positions: projectile-mob collision (the first mob in registry order
//! within the collision radius takes the projectile's damage, and the
//! projectile is marked for removal — first hit wins, one projectile never
//! damages two mobs in a tick) and mob-player proximity damage (each mob
//! within the proximity radius drains `strength * dt` health). Removals are
//! only marked here; the registry applies them in one batch afterwards.

use vstd::prelude::*;
use crate::fx::{FX_LIMIT, DT_LIMIT, in_fx, clamp_fx, mul_fx_exact, mul_fx};
use crate::vec2::{Vec2, in_fx_vec, dist_sq};
use crate::mob::{Mob, mob_wf, spec_mob_damage};
use crate::player::{Player, player_wf, Projectile, projectile_wf, projectile_expired};

verus! {

/// Squared collision radius of a projectile against a mob (0.5 in raw
/// squared distance). Exposed as a named tunable.
pub const COLLISION_RADIUS_SQ: i64 = 524288;

/// Squared radius of mob-player contact damage (2.0 squared). Exposed as a
/// named tunable.
pub const PROXIMITY_RADIUS_SQ: i64 = 4194304;

/// A projectile at `pos` collides with mob `m`.
pub open spec fn spec_hit(m: Mob, pos: Vec2) -> bool {
    dist_sq(m.body.pos, pos) < COLLISION_RADIUS_SQ as int
}

/// Index of the first mob at or after `k` that a projectile at `pos`
/// collides with, if any.
pub open spec fn spec_first_hit_from(mobs: Seq<Mob>, pos: Vec2, k: int) -> Option<int>
    decreases mobs.len() - k,
{
    if k < 0 || k >= mobs.len() {
        None
    } else if spec_hit(mobs[k], pos) {
        Some(k)
    } else {
        spec_first_hit_from(mobs, pos, k + 1)
    }
}

/// The mob registry after one projectile's collision is resolved: the first
/// mob it overlaps takes its damage; with no overlap nothing changes.
pub open spec fn spec_resolve_one(mobs: Seq<Mob>, pr: Projectile) -> Seq<Mob> {
    match spec_first_hit_from(mobs, pr.body.pos, 0) {
        Some(i) => mobs.update(i, spec_mob_damage(mobs[i], pr.damage as int)),
        None => mobs,
    }
}

/// Whether one projectile finds a mob to collide with.
pub open spec fn spec_hits_one(mobs: Seq<Mob>, pr: Projectile) -> bool {
    spec_first_hit_from(mobs, pr.body.pos, 0) is Some
}

/// The mob registry after the first `k` projectiles are resolved in order.
pub open spec fn spec_resolve_mobs(mobs: Seq<Mob>, projs: Seq<Projectile>, k: int) -> Seq<Mob>
    decreases k,
{
    if k <= 0 {
        mobs
    } else {
        spec_resolve_one(spec_resolve_mobs(mobs, projs, k - 1), projs[k - 1])
    }
}

/// The collision marks of the first `k` projectiles, in order: mark `j` says
/// projectile `j` collided (and is to be removed).
pub open spec fn spec_hit_marks(mobs: Seq<Mob>, projs: Seq<Projectile>, k: int) -> Seq<bool>
    decreases k,
{
    if k <= 0 {
        Seq::empty()
    } else {
        spec_hit_marks(mobs, projs, k - 1).push(
            spec_hits_one(spec_resolve_mobs(mobs, projs, k - 1), projs[k - 1]),
        )
    }
}

/// The player after contact damage from the first `k` mobs: each mob within
/// the proximity radius drains `strength * dt`, folded in registry order.
pub open spec fn spec_player_after_contact(p: Player, mobs: Seq<Mob>, dt: int, k: int) -> Player
    decreases k,
{
    if k <= 0 {
        p
    } else {
        let prev = spec_player_after_contact(p, mobs, dt, k - 1);
        if dist_sq(mobs[k - 1].body.pos, p.body.pos) < PROXIMITY_RADIUS_SQ as int {
            Player {
                health: clamp_fx(
                    prev.health - clamp_fx(mul_fx_exact(mobs[k - 1].strength as int, dt)),
                ) as i64,
                ..prev
            }
        } else {
            prev
        }
    }
}

/// The live mobs among the first `k`, in order: despawning drops exactly the
/// mobs whose health has reached zero or below.
pub open spec fn spec_live_mobs(mobs: Seq<Mob>, k: int) -> Seq<Mob>
    decreases k,
{
    if k <= 0 {
        Seq::empty()
    } else {
        let prev = spec_live_mobs(mobs, k - 1);
        if mobs[k - 1].health > 0 {
            prev.push(mobs[k - 1])
        } else {
            prev
        }
    }
}

/// The projectiles kept among the first `k`: one is removed when its
/// collision mark is set or its lifetime has expired.
pub open spec fn spec_kept_projectiles(
    projs: Seq<Projectile>,
    marks: Seq<bool>,
    k: int,
) -> Seq<Projectile>
    decreases k,
{
    if k <= 0 {
        Seq::empty()
    } else {
        let prev = spec_kept_projectiles(projs, marks, k - 1);
        if !marks[k - 1] && !projectile_expired(projs[k - 1]) {
            prev.push(projs[k - 1])
        } else {
            prev
        }
    }
}

/// Index of the first mob that a projectile at `pos` collides with, if any.
pub fn first_hit(mobs: &Vec<Mob>, pos: Vec2) -> (r: Option<usize>)
    requires
        forall|k: int| 0 <= k < mobs@.len() ==> mob_wf(#[trigger] mobs@[k]),
        in_fx_vec(pos),
    ensures
        match r {
            Some(i) => spec_first_hit_from(mobs@, pos, 0) == Some(i as int)
                && i < mobs@.len(),
            None => spec_first_hit_from(mobs@, pos, 0) is None,
        },
{
    let n: usize = mobs.len();
    let mut i: usize = 0;
    while i < n
        invariant
            n == mobs@.len(),
            forall|k: int| 0 <= k < n ==> mob_wf(#[trigger] mobs@[k]),
            in_fx_vec(pos),
            i <= n,
            spec_first_hit_from(mobs@, pos, 0) == spec_first_hit_from(mobs@, pos, i as int),
        decreases n - i,
    {
        let m: Mob = mobs[i];
        if m.body.pos.distance_squared(pos) < COLLISION_RADIUS_SQ {
            return Some(i);
        }
        i = i + 1;
    }
    None
}

/// Resolve every projectile's collision, in order: the first overlapping mob
/// takes the damage, and the returned marks say which projectiles collided
/// (mark `j` for projectile `j`). The registry keeps its length; only hit
/// mobs change, and only in health and flash timer.
pub fn resolve_projectiles(mobs: &mut Vec<Mob>, projs: &Vec<Projectile>) -> (marks: Vec<bool>)
    requires
        forall|k: int| 0 <= k < old(mobs)@.len() ==> mob_wf(#[trigger] old(mobs)@[k]),
        forall|k: int| 0 <= k < projs@.len() ==> projectile_wf(#[trigger] projs@[k]),
    ensures
        final(mobs)@ == spec_resolve_mobs(old(mobs)@, projs@, projs@.len() as int),
        marks@ == spec_hit_marks(old(mobs)@, projs@, projs@.len() as int),
        marks@.len() == projs@.len(),
        final(mobs)@.len() == old(mobs)@.len(),
        forall|k: int| 0 <= k < final(mobs)@.len() ==> mob_wf(#[trigger] final(mobs)@[k]),
{
    let n: usize = projs.len();
    let mut marks: Vec<bool> = Vec::new();
    let mut j: usize = 0;
    while j < n
        invariant
            n == projs@.len(),
            forall|k: int| 0 <= k < projs@.len() ==> projectile_wf(#[trigger] projs@[k]),
            j <= n,
            mobs@ == spec_resolve_mobs(old(mobs)@, projs@, j as int),
            marks@ == spec_hit_marks(old(mobs)@, projs@, j as int),
            marks@.len() == j as int,
            mobs@.len() == old(mobs)@.len(),
            forall|k: int| 0 <= k < mobs@.len() ==> mob_wf(#[trigger] mobs@[k]),
        decreases n - j,
    {
        let pr: Projectile = projs[j];
        match first_hit(mobs, pr.body.pos) {
            Some(i) => {
                let mut m: Mob = mobs[i];
                m.damage(pr.damage);
                mobs.set(i, m);
                marks.push(true);
            },
            None => {
                marks.push(false);
            },
        }
        j = j + 1;
    }
    marks
}

/// Drain the player's health by `strength * dt` for every mob within the
/// proximity radius of the player, in registry order.
pub fn player_mob_interaction(player: &mut Player, mobs: &Vec<Mob>, dt: i64)
    requires
        player_wf(*old(player)),
        forall|k: int| 0 <= k < mobs@.len() ==> mob_wf(#[trigger] mobs@[k]),
        0 <= dt <= DT_LIMIT,
    ensures
        *final(player) == spec_player_after_contact(*old(player), mobs@, dt as int, mobs@.len() as int),
        player_wf(*final(player)),
        final(player).body == old(player).body,
{
    let ghost p0: Player = *player;
    let n: usize = mobs.len();
    let mut i: usize = 0;
    while i < n
        invariant
            n == mobs@.len(),
            forall|k: int| 0 <= k < n ==> mob_wf(#[trigger] mobs@[k]),
            0 <= dt <= DT_LIMIT,
            player_wf(p0),
            i <= n,
            *player == spec_player_after_contact(p0, mobs@, dt as int, i as int),
            player.body == p0.body,
            player_wf(*player),
            p0 == *old(player),
        decreases n - i,
    {
        let m: Mob = mobs[i];
        if m.body.pos.distance_squared(player.body.pos) < PROXIMITY_RADIUS_SQ {
            player.health = crate::fx::sub_fx(player.health, mul_fx(m.strength, dt));
        }
        i = i + 1;
    }
}

/// Apply the batched mob despawns: keep exactly the mobs whose health is
/// still positive, in order.
pub fn retain_live_mobs(mobs: &mut Vec<Mob>)
    requires
        forall|k: int| 0 <= k < old(mobs)@.len() ==> mob_wf(#[trigger] old(mobs)@[k]),
    ensures
        final(mobs)@ == spec_live_mobs(old(mobs)@, old(mobs)@.len() as int),
        forall|k: int| 0 <= k < final(mobs)@.len() ==> mob_wf(#[trigger] final(mobs)@[k]),
        forall|k: int| 0 <= k < final(mobs)@.len() ==> final(mobs)@[k].health > 0,
{
    let n: usize = mobs.len();
    let mut kept: Vec<Mob> = Vec::new();
    let mut i: usize = 0;
    while i < n
        invariant
            n == mobs@.len(),
            mobs@ == old(mobs)@,
            forall|k: int| 0 <= k < n ==> mob_wf(#[trigger] mobs@[k]),
            i <= n,
            kept@ == spec_live_mobs(mobs@, i as int),
            forall|k: int| 0 <= k < kept@.len() ==> mob_wf(#[trigger] kept@[k]),
            forall|k: int| 0 <= k < kept@.len() ==> kept@[k].health > 0,
        decreases n - i,
    {
        let m: Mob = mobs[i];
        if m.health > 0 {
            kept.push(m);
        }
        i = i + 1;
    }
    *mobs = kept;
}

/// Apply the batched projectile despawns: keep exactly the projectiles that
/// neither collided nor expired, in order.
pub fn retain_projectiles(projs: &mut Vec<Projectile>, marks: &Vec<bool>)
    requires
        marks@.len() == old(projs)@.len(),
        forall|k: int| 0 <= k < old(projs)@.len() ==> projectile_wf(#[trigger] old(projs)@[k]),
    ensures
        final(projs)@ == spec_kept_projectiles(old(projs)@, marks@, old(projs)@.len() as int),
        forall|k: int| 0 <= k < final(projs)@.len() ==> projectile_wf(#[trigger] final(projs)@[k]),
{
    let n: usize = projs.len();
    let mut kept: Vec<Projectile> = Vec::new();
    let mut i: usize = 0;
    while i < n
        invariant
            n == projs@.len(),
            projs@ == old(projs)@,
            marks@.len() == n,
            forall|k: int| 0 <= k < n ==> projectile_wf(#[trigger] projs@[k]),
            i <= n,
            kept@ == spec_kept_projectiles(projs@, marks@, i as int),
            forall|k: int| 0 <= k < kept@.len() ==> projectile_wf(#[trigger] kept@[k]),
        decreases n - i,
    {
        let pr: Projectile = projs[i];
        let expired: bool = pr.lifetime.elapsed() >= crate::player::PROJECTILE_LIFETIME;
        if !marks[i] && !expired {
            kept.push(pr);
        }
        i = i + 1;
    }
    *projs = kept;
}

/// Where the first collision lands, what it does, and what it leaves alone.
pub proof fn lemma_first_hit_characterizes(mobs: Seq<Mob>, pos: Vec2, k: int)
    requires
        0 <= k,
    ensures
        match spec_first_hit_from(mobs, pos, k) {
            Some(i) => k <= i < mobs.len() && spec_hit(mobs[i], pos) && forall|j: int|
                k <= j < i ==> !spec_hit(#[trigger] mobs[j], pos),
            None => forall|j: int| k <= j < mobs.len() ==> !spec_hit(#[trigger] mobs[j], pos),
        },
    decreases mobs.len() - k,
{
    if k < mobs.len() {
        if !spec_hit(mobs[k], pos) {
            lemma_first_hit_characterizes(mobs, pos, k + 1);
        }
    }
}

/// First hit wins: when one projectile overlaps two mobs at once, exactly one
/// of them — the first in registry order that the projectile overlaps — takes
/// the damage, every other mob is untouched, and the projectile is marked for
/// removal.
pub proof fn lemma_first_hit_wins(mobs: Seq<Mob>, pr: Projectile, a: int, b: int)
    requires
        0 <= a < mobs.len(),
        0 <= b < mobs.len(),
        a != b,
        spec_hit(mobs[a], pr.body.pos),
        spec_hit(mobs[b], pr.body.pos),
    ensures
        spec_hits_one(mobs, pr),
        ({
            let f = spec_first_hit_from(mobs, pr.body.pos, 0)->Some_0;
            &&& 0 <= f < mobs.len()
            &&& spec_hit(mobs[f], pr.body.pos)
            &&& spec_resolve_one(mobs, pr)[f] == spec_mob_damage(mobs[f], pr.damage as int)
            &&& spec_resolve_one(mobs, pr)[f].health == clamp_fx(mobs[f].health - pr.damage)
            &&& forall|j: int| 0 <= j < mobs.len() && j != f
                ==> #[trigger] spec_resolve_one(mobs, pr)[j] == mobs[j]
        }),
{
    lemma_first_hit_characterizes(mobs, pr.body.pos, 0);
}

/// Despawning removes exactly the dead: the filtered registry is empty
/// precisely when no mob among the first `k` has positive health.
pub proof fn lemma_live_mobs_empty(mobs: Seq<Mob>, k: int)
    requires
        k <= mobs.len(),
    ensures
        spec_live_mobs(mobs, k).len() == 0 <==> forall|j: int|
            0 <= j < k ==> #[trigger] mobs[j].health <= 0,
    decreases k,
{
    if k > 0 {
        lemma_live_mobs_empty(mobs, k - 1);
    }
}

/// A lethal hit clears a one-mob registry: when the registry holds exactly
/// one mob, a projectile overlaps it, and the projectile's damage is at least
/// the mob's health, resolving the projectile and applying the despawns
/// leaves the registry empty — which is the wave-complete signal.
pub proof fn lemma_lethal_hit_empties_registry(mobs: Seq<Mob>, pr: Projectile)
    requires
        mobs.len() == 1,
        spec_hit(mobs[0], pr.body.pos),
        pr.damage >= mobs[0].health,
    ensures
        spec_hits_one(mobs, pr),
        spec_live_mobs(spec_resolve_one(mobs, pr), 1).len() == 0,
{
    lemma_first_hit_characterizes(mobs, pr.body.pos, 0);
    assert(spec_first_hit_from(mobs, pr.body.pos, 0) == Some(0int));
    let m2 = spec_resolve_one(mobs, pr);
    assert(m2[0].health == clamp_fx(mobs[0].health - pr.damage));
    assert(m2[0].health <= 0);
    assert(spec_live_mobs(m2, 0).len() == 0);
}

} // verus!
