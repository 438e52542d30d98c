//! The simulation world and its tick.
//!
//! One tick runs the phases in a fixed order:
//! 1. force aggregation over an immutable snapshot of all mob positions
//!    (inter-mob forces and player pull), and projectile homing directions
//!    from the same snapshot;
//! 2. integration of every mob, the player and every projectile (projectile
//!    lifetimes advance here);
//! 3. combat over the post-integration positions: projectile-mob collisions
//!    (first hit wins) and mob-player contact damage;
//! 4. the batched despawns: mobs at zero or negative health, projectiles
//!    that collided or expired;
//! 5. the wave director: a registry left empty spawns the next wave and
//!    increments the wave counter once;
//! 6. the projectile cadence: the spawn timer advances by `dt` and fires one
//!    projectile from the player's position each time its period elapses.
//!
//! Force computation completes for every mob before any integration is
//! applied, and all removals are collected before any is applied, so no
//! phase ever reads a half-updated entity.

use vstd::prelude::*;
use crate::fx::DT_LIMIT;
use crate::vec2::{Vec2, in_fx_vec, vadd, vsub, vnormalize};
use crate::body::KinematicBody;
use crate::mob::{Mob, mob_wf, spec_mob_update};
use crate::player::{
    Player, player_wf, spec_player_update,
    Projectile, projectile_wf, spec_projectile_update, spec_new_projectile,
    PROJECTILE_SPAWN_PERIOD,
};
use crate::forces::{spec_net_force, spec_mob_with_force, compute_forces, apply_forces};
use crate::combat::{
    spec_resolve_mobs, spec_hit_marks, spec_player_after_contact, spec_live_mobs,
    spec_kept_projectiles, resolve_projectiles, player_mob_interaction, retain_live_mobs,
    retain_projectiles,
};
use crate::waves::{Wave, WAVE_LIMIT, spec_wave_size, spec_spawned_mob, spawn_wave};
use crate::timer::{Stopwatch, stopwatch_wf, spec_advance};

verus! {

/// The whole simulation state: the mob registry, the live projectiles, the
/// player, the wave counter and the projectile spawn timer.
pub struct World {
    pub mobs: Vec<Mob>,
    pub projectiles: Vec<Projectile>,
    pub player: Player,
    pub wave: Wave,
    pub spawn_timer: Stopwatch,
}

/// Every entity is well-formed and the wave counter is inside its bound.
pub open spec fn world_wf(w: World) -> bool {
    &&& forall|k: int| 0 <= k < w.mobs@.len() ==> mob_wf(#[trigger] w.mobs@[k])
    &&& forall|k: int| 0 <= k < w.projectiles@.len() ==> projectile_wf(#[trigger] w.projectiles@[k])
    &&& player_wf(w.player)
    &&& w.wave.current < WAVE_LIMIT
    &&& stopwatch_wf(w.spawn_timer)
}

/// The positions of a mob registry, in order.
pub open spec fn spec_positions(mobs: Seq<Mob>) -> Seq<Vec2> {
    mobs.map(|i: int, m: Mob| m.body.pos)
}

/// Every mob with its net force for the tick folded into its accumulator.
pub open spec fn spec_phase_forces(mobs: Seq<Mob>, ppos: Vec2) -> Seq<Mob> {
    mobs.map(|i: int, m: Mob| spec_mob_with_force(m, spec_net_force(spec_positions(mobs), i, ppos)))
}

/// The summed direction from `from` toward the first `k` snapshot positions.
pub open spec fn spec_homing_dir(ps: Seq<Vec2>, from: Vec2, k: int) -> Vec2
    decreases k,
{
    if k <= 0 {
        Vec2 { x: 0, z: 0 }
    } else {
        vadd(spec_homing_dir(ps, from, k - 1), vsub(ps[k - 1], from))
    }
}

/// A projectile's homing acceleration: the normalized sum of the directions
/// toward every live mob, or zero when there are none.
pub open spec fn spec_homing_acc(ps: Seq<Vec2>, from: Vec2) -> Vec2 {
    vnormalize(spec_homing_dir(ps, from, ps.len() as int))
}

/// Every projectile with its homing acceleration pointed for this tick.
pub open spec fn spec_phase_homing(projs: Seq<Projectile>, ps: Seq<Vec2>) -> Seq<Projectile> {
    projs.map(|i: int, pr: Projectile| Projectile {
        body: KinematicBody { acc: spec_homing_acc(ps, pr.body.pos), ..pr.body },
        ..pr
    })
}

/// Every mob integrated by one tick.
pub open spec fn spec_phase_integrate_mobs(mobs: Seq<Mob>, dt: int) -> Seq<Mob> {
    mobs.map(|i: int, m: Mob| spec_mob_update(m, dt))
}

/// Every projectile integrated by one tick.
pub open spec fn spec_phase_integrate_projs(projs: Seq<Projectile>, dt: int) -> Seq<Projectile> {
    projs.map(|i: int, pr: Projectile| spec_projectile_update(pr, dt))
}

/// The deterministic part of one tick (phases one to four), as the mobs that
/// survive, the projectiles that remain, and the player after damage.
pub open spec fn spec_tick_core(
    mobs: Seq<Mob>,
    projs: Seq<Projectile>,
    player: Player,
    dt: int,
) -> (Seq<Mob>, Seq<Projectile>, Player) {
    let ps = spec_positions(mobs);
    let m1 = spec_phase_forces(mobs, player.body.pos);
    let p1 = spec_phase_homing(projs, ps);
    let m2 = spec_phase_integrate_mobs(m1, dt);
    let pl2 = spec_player_update(player, dt);
    let p2 = spec_phase_integrate_projs(p1, dt);
    let m3 = spec_resolve_mobs(m2, p2, p2.len() as int);
    let marks = spec_hit_marks(m2, p2, p2.len() as int);
    let pl3 = spec_player_after_contact(pl2, m3, dt, m3.len() as int);
    let m4 = spec_live_mobs(m3, m3.len() as int);
    let p3 = spec_kept_projectiles(p2, marks, p2.len() as int);
    (m4, p3, pl3)
}

impl World {
    /// A fresh session: the player at `player_pos`, no mobs (so the first
    /// tick spawns wave zero), no projectiles, the wave counter at zero.
    pub fn new(player_pos: Vec2) -> (w: World)
        requires
            in_fx_vec(player_pos),
        ensures
            w.mobs@.len() == 0,
            w.projectiles@.len() == 0,
            w.player == crate::player::spec_new_player(player_pos),
            w.wave == (Wave { current: 0usize }),
            w.spawn_timer == (Stopwatch { elapsed: 0i64 }),
            world_wf(w),
    {
        World {
            mobs: Vec::new(),
            projectiles: Vec::new(),
            player: Player::new(player_pos),
            wave: Wave { current: 0 },
            spawn_timer: Stopwatch::new(),
        }
    }

    /// One simulation tick of `dt` raw seconds, in the documented phase
    /// order. The survivors, remaining projectiles and damaged player are
    /// exactly the deterministic core; a registry left empty is refilled
    /// with the next wave's freshly spawned mobs and the counter increments
    /// once; the spawn timer fires at most one projectile.
    pub fn tick(&mut self, dt: i64)
        requires
            world_wf(*old(self)),
            0 < dt <= DT_LIMIT,
            old(self).wave.current + 1 < WAVE_LIMIT,
        ensures
            world_wf(*final(self)),
            ({
                let core = spec_tick_core(
                    old(self).mobs@,
                    old(self).projectiles@,
                    old(self).player,
                    dt as int,
                );
                let survivors = core.0;
                let remaining = core.1;
                let pl = core.2;
                let timer1 = spec_advance(old(self).spawn_timer, dt as int);
                let fired = timer1.elapsed >= PROJECTILE_SPAWN_PERIOD;
                &&& final(self).player == pl
                &&& (survivors.len() > 0 ==> final(self).mobs@ == survivors
                    && final(self).wave == old(self).wave)
                &&& (survivors.len() == 0 ==> {
                    &&& final(self).wave.current == old(self).wave.current + 1
                    &&& final(self).mobs@.len()
                        == spec_wave_size(old(self).wave.current as int)
                    &&& forall|k: int| 0 <= k < final(self).mobs@.len()
                        ==> spec_spawned_mob(#[trigger] final(self).mobs@[k])
                })
                &&& (fired ==> final(self).projectiles@
                        == remaining.push(spec_new_projectile(pl.body.pos))
                    && final(self).spawn_timer.elapsed
                        == timer1.elapsed - PROJECTILE_SPAWN_PERIOD)
                &&& (!fired ==> final(self).projectiles@ == remaining
                    && final(self).spawn_timer == timer1)
            }),
    {
        let ghost mobs0: Seq<Mob> = self.mobs@;
        let ghost projs0: Seq<Projectile> = self.projectiles@;
        let ghost player0: Player = self.player;

        // Phase 1: snapshot the positions, aggregate forces, point homing.
        let n: usize = self.mobs.len();
        let mut positions: Vec<Vec2> = Vec::new();
        let mut i: usize = 0;
        while i < n
            invariant
                n == self.mobs@.len(),
                self.mobs@ == mobs0,
                world_wf(*self),
                i <= n,
                positions@.len() == i as int,
                forall|k: int| 0 <= k < i as int
                    ==> #[trigger] positions@[k] == mobs0[k].body.pos,
            decreases n - i,
        {
            let m: Mob = self.mobs[i];
            positions.push(m.body.pos);
            i = i + 1;
        }
        proof {
            assert(positions@ =~= spec_positions(mobs0));
        }
        let forces = compute_forces(&positions, self.player.body.pos);
        apply_forces(&mut self.mobs, &forces);
        proof {
            assert(self.mobs@ =~= spec_phase_forces(mobs0, player0.body.pos));
        }
        let ghost m1: Seq<Mob> = self.mobs@;

        let np: usize = self.projectiles.len();
        let mut j: usize = 0;
        while j < np
            invariant
                np == self.projectiles@.len(),
                self.projectiles@.len() == projs0.len(),
                self.mobs@ == m1,
                self.player == player0,
                self.wave == old(self).wave,
                self.spawn_timer == old(self).spawn_timer,
                positions@ == spec_positions(mobs0),
                n == positions@.len(),
                forall|k: int| 0 <= k < positions@.len() ==> in_fx_vec(#[trigger] positions@[k]),
                forall|k: int| 0 <= k < projs0.len() ==> projectile_wf(#[trigger] projs0[k]),
                j <= np,
                forall|k: int| j as int <= k < np ==> #[trigger] self.projectiles@[k] == projs0[k],
                forall|k: int| 0 <= k < j as int ==> #[trigger] self.projectiles@[k]
                    == (Projectile {
                        body: KinematicBody {
                            acc: spec_homing_acc(positions@, projs0[k].body.pos),
                            ..projs0[k].body
                        },
                        ..projs0[k]
                    }),
                forall|k: int| 0 <= k < np ==> projectile_wf(#[trigger] self.projectiles@[k]),
            decreases np - j,
        {
            let pr: Projectile = self.projectiles[j];
            let mut dir = Vec2::zero();
            let mut k: usize = 0;
            while k < n
                invariant
                    n == positions@.len(),
                    forall|t: int| 0 <= t < positions@.len()
                        ==> in_fx_vec(#[trigger] positions@[t]),
                    in_fx_vec(pr.body.pos),
                    k <= n,
                    dir == spec_homing_dir(positions@, pr.body.pos, k as int),
                    in_fx_vec(dir),
                decreases n - k,
            {
                let p: Vec2 = positions[k];
                dir = dir.add(p.sub(pr.body.pos));
                k = k + 1;
            }
            let acc = dir.normalize_or_zero();
            let mut pr2: Projectile = pr;
            pr2.set_homing(acc);
            self.projectiles.set(j, pr2);
            j = j + 1;
        }
        proof {
            assert(self.projectiles@ =~= spec_phase_homing(projs0, spec_positions(mobs0)));
        }
        let ghost p1: Seq<Projectile> = self.projectiles@;

        // Phase 2: integrate every mob, the player and every projectile.
        let mut i2: usize = 0;
        while i2 < n
            invariant
                n == self.mobs@.len(),
                self.mobs@.len() == m1.len(),
                self.projectiles@ == p1,
                self.player == player0,
                self.wave == old(self).wave,
                self.spawn_timer == old(self).spawn_timer,
                forall|k: int| 0 <= k < m1.len() ==> mob_wf(#[trigger] m1[k]),
                0 <= dt <= DT_LIMIT,
                i2 <= n,
                forall|k: int| i2 as int <= k < n ==> #[trigger] self.mobs@[k] == m1[k],
                forall|k: int| 0 <= k < i2 as int
                    ==> #[trigger] self.mobs@[k] == spec_mob_update(m1[k], dt as int),
                forall|k: int| 0 <= k < n ==> mob_wf(#[trigger] self.mobs@[k]),
            decreases n - i2,
        {
            let mut m: Mob = self.mobs[i2];
            m.update(dt);
            self.mobs.set(i2, m);
            i2 = i2 + 1;
        }
        proof {
            assert(self.mobs@ =~= spec_phase_integrate_mobs(m1, dt as int));
        }
        let ghost m2: Seq<Mob> = self.mobs@;

        self.player.update(dt);
        let ghost pl2: Player = self.player;

        let mut j2: usize = 0;
        while j2 < np
            invariant
                np == self.projectiles@.len(),
                self.projectiles@.len() == p1.len(),
                self.mobs@ == m2,
                self.player == pl2,
                self.wave == old(self).wave,
                self.spawn_timer == old(self).spawn_timer,
                forall|k: int| 0 <= k < p1.len() ==> projectile_wf(#[trigger] p1[k]),
                0 <= dt <= DT_LIMIT,
                j2 <= np,
                forall|k: int| j2 as int <= k < np ==> #[trigger] self.projectiles@[k] == p1[k],
                forall|k: int| 0 <= k < j2 as int ==> #[trigger] self.projectiles@[k]
                    == spec_projectile_update(p1[k], dt as int),
                forall|k: int| 0 <= k < np ==> projectile_wf(#[trigger] self.projectiles@[k]),
            decreases np - j2,
        {
            let mut pr: Projectile = self.projectiles[j2];
            pr.update(dt);
            self.projectiles.set(j2, pr);
            j2 = j2 + 1;
        }
        proof {
            assert(self.projectiles@ =~= spec_phase_integrate_projs(p1, dt as int));
        }
        let ghost p2: Seq<Projectile> = self.projectiles@;

        // Phase 3: combat over the post-integration positions.
        let marks = resolve_projectiles(&mut self.mobs, &self.projectiles);
        let ghost m3: Seq<Mob> = self.mobs@;
        player_mob_interaction(&mut self.player, &self.mobs, dt);

        // Phase 4: apply the batched despawns.
        retain_live_mobs(&mut self.mobs);
        retain_projectiles(&mut self.projectiles, &marks);

        // Phase 5: the wave director.
        if self.mobs.len() == 0 {
            spawn_wave(&mut self.mobs, self.wave.current);
            self.wave.current = self.wave.current + 1;
        }

        // Phase 6: the projectile cadence.
        self.spawn_timer.advance(dt);
        let e: i64 = self.spawn_timer.elapsed();
        if e >= PROJECTILE_SPAWN_PERIOD {
            self.spawn_timer = Stopwatch { elapsed: e - PROJECTILE_SPAWN_PERIOD };
            self.projectiles.push(Projectile::new(self.player.body.pos));
        }
    }
}

} // verus!
