use amplitude::vec2::Vec2;
use amplitude::mob::{Mob, MOB_STRENGTH, MOB_HEALTH};
use amplitude::player::{Projectile, PROJECTILE_SPAWN_PERIOD};
use amplitude::waves::{Wave, FIELD_SIZE};
use amplitude::timer::Stopwatch;
use amplitude::world::World;

#[test]
fn fresh_world_spawns_wave_zero() {
    let mut w = World::new(Vec2::zero());
    assert_eq!(w.wave.current, 0);
    assert_eq!(w.mobs.len(), 0);
    w.tick(34);
    // The empty registry triggers the first wave: two baseline mobs inside
    // the playfield, counter incremented once.
    assert_eq!(w.wave.current, 1);
    assert_eq!(w.mobs.len(), 2);
    for m in w.mobs.iter() {
        assert_eq!(m.health, MOB_HEALTH);
        assert_eq!(m.strength, MOB_STRENGTH);
        assert!(0 <= m.body.pos.x && m.body.pos.x < FIELD_SIZE);
        assert!(0 <= m.body.pos.z && m.body.pos.z < FIELD_SIZE);
        assert_eq!(m.body.vel, Vec2::zero());
    }
    assert_eq!(w.projectiles.len(), 0);
}

#[test]
fn wave_transition_on_last_mob_killed() {
    // One mob at a sliver of health, one projectile on top of it, the player
    // at the same spot so nothing pulls anything anywhere. After one tick the
    // mob is gone, the next wave has spawned, and the counter moved once.
    let spot = Vec2::new(5120, 5120);
    let mut m = Mob::new(spot, MOB_STRENGTH);
    m.health = 102;
    let pr = Projectile::new(spot);
    let mut w = World {
        mobs: vec![m],
        projectiles: vec![pr],
        player: amplitude::player::Player::new(spot),
        wave: Wave { current: 0 },
        spawn_timer: Stopwatch::new(),
    };
    w.tick(34);
    assert_eq!(w.wave.current, 1, "the counter increments exactly once");
    assert_eq!(w.mobs.len(), 2, "wave_size(0) fresh mobs spawned");
    for nm in w.mobs.iter() {
        assert_eq!(nm.health, MOB_HEALTH);
    }
    assert_eq!(w.projectiles.len(), 0, "the projectile was consumed");
}

#[test]
fn surviving_wave_does_not_advance_counter() {
    let spot = Vec2::new(5120, 5120);
    let m = Mob::new(spot, MOB_STRENGTH);
    let mut w = World {
        mobs: vec![m],
        projectiles: vec![],
        player: amplitude::player::Player::new(Vec2::zero()),
        wave: Wave { current: 3 },
        spawn_timer: Stopwatch::new(),
    };
    w.tick(34);
    assert_eq!(w.wave.current, 3);
    assert_eq!(w.mobs.len(), 1);
}

#[test]
fn projectile_cadence_fires_on_period() {
    let spot = Vec2::new(5120, 5120);
    let m = Mob::new(spot, MOB_STRENGTH);
    let mut w = World {
        mobs: vec![m],
        projectiles: vec![],
        player: amplitude::player::Player::new(Vec2::zero()),
        wave: Wave { current: 1 },
        spawn_timer: Stopwatch::new(),
    };
    // Short tick: period not yet reached, nothing fires.
    w.tick(100);
    assert_eq!(w.projectiles.len(), 0);
    assert_eq!(w.spawn_timer.elapsed, 100);
    // Crossing the period fires exactly one projectile at the player's
    // position and keeps the remainder in the timer.
    w.tick(250);
    assert_eq!(w.projectiles.len(), 1);
    assert_eq!(w.spawn_timer.elapsed, 350 - PROJECTILE_SPAWN_PERIOD);
    assert_eq!(w.projectiles[0].body.pos, w.player.body.pos);
    assert_eq!(w.projectiles[0].body.vel, Vec2::zero());
}

#[test]
fn tick_keeps_coincident_mobs_in_range() {
    // Both mobs on the same spot: the epsilon-clamped repulsion keeps the
    // whole tick finite and inside the stored range.
    let spot = Vec2::new(512, 512);
    let mut w = World {
        mobs: vec![Mob::new(spot, MOB_STRENGTH), Mob::new(spot, MOB_STRENGTH)],
        projectiles: vec![],
        player: amplitude::player::Player::new(spot),
        wave: Wave { current: 1 },
        spawn_timer: Stopwatch::new(),
    };
    for _ in 0..20 {
        w.tick(34);
        for m in w.mobs.iter() {
            assert!(m.body.pos.x.abs() <= amplitude::fx::FX_LIMIT);
            assert!(m.body.pos.z.abs() <= amplitude::fx::FX_LIMIT);
        }
    }
    assert_eq!(w.mobs.len(), 2);
}

#[test]
fn homing_drifts_projectile_toward_mob_cluster() {
    // A projectile to the west of two mobs in the east drifts east.
    let mut w = World {
        mobs: vec![
            Mob::new(Vec2::new(10240, 0), MOB_STRENGTH),
            Mob::new(Vec2::new(10240, 2048), MOB_STRENGTH),
        ],
        projectiles: vec![Projectile::new(Vec2::zero())],
        player: amplitude::player::Player::new(Vec2::new(10240, 1024)),
        wave: Wave { current: 1 },
        spawn_timer: Stopwatch::new(),
    };
    let x0 = w.projectiles[0].body.pos.x;
    w.tick(100);
    assert_eq!(w.projectiles.len(), 1);
    assert!(w.projectiles[0].body.pos.x > x0);
}
