use amplitude::fx::{isqrt, FX_LIMIT, DT_LIMIT};
use amplitude::vec2::Vec2;
use amplitude::mob::{Mob, DRAG_CONSTANT, MOB_HEALTH, MOB_STRENGTH, MOB_MASS};
use amplitude::player::{Player, Projectile, PLAYER_HEALTH, PROJECTILE_DAMAGE};

fn len_sq(v: Vec2) -> i64 {
    v.x * v.x + v.z * v.z
}

#[test]
fn isqrt_small_values() {
    assert_eq!(isqrt(0), 0);
    assert_eq!(isqrt(1), 1);
    assert_eq!(isqrt(2), 1);
    assert_eq!(isqrt(3), 1);
    assert_eq!(isqrt(4), 2);
    assert_eq!(isqrt(24), 4);
    assert_eq!(isqrt(25), 5);
    assert_eq!(isqrt(26), 5);
}

#[test]
fn isqrt_large_values() {
    let q: u64 = (1u64 << 62) - 1;
    let r = isqrt(q);
    assert!(r * r <= q);
    assert!((r + 1) * (r + 1) > q);
    assert_eq!(isqrt(1u64 << 60), 1u64 << 30);
}

#[test]
fn vector_ops_exact() {
    let a = Vec2::new(3072, 4096);
    assert_eq!(a.length_squared(), 26214400);
    assert_eq!(a.length(), 5120);
    let n = a.normalize_or_zero();
    assert_eq!(n.x, 614);
    assert_eq!(n.z, 819);
    let zero = Vec2::zero();
    let nz = zero.normalize_or_zero();
    assert_eq!(nz.x, 0);
    assert_eq!(nz.z, 0);
}

#[test]
fn vector_saturates_at_limit() {
    let a = Vec2::new(FX_LIMIT, 0);
    let b = a.add(a);
    assert_eq!(b.x, FX_LIMIT);
    let c = Vec2::new(-FX_LIMIT, 0).sub(a);
    assert_eq!(c.x, -FX_LIMIT);
}

#[test]
fn rest_is_unchanged_by_any_dt() {
    // A body with zero velocity, acceleration and force stays exactly put.
    let pos = Vec2::new(5120, -2048);
    for dt in [0i64, 1, 34, 1024, DT_LIMIT] {
        let mut m = Mob::new(pos, MOB_STRENGTH);
        m.update(dt);
        assert_eq!(m.body.pos.x, 5120);
        assert_eq!(m.body.pos.z, -2048);
        assert_eq!(m.body.vel.x, 0);
        assert_eq!(m.body.vel.z, 0);
        assert_eq!(m.body.acc.x, 0);
        assert_eq!(m.body.acc.z, 0);
        assert_eq!(m.body.force.x, 0);
        assert_eq!(m.body.force.z, 0);
    }
}

#[test]
fn drag_strictly_slows_a_moving_body() {
    // Nonzero velocity, zero force: the squared speed strictly drops each
    // tick and no component ever flips sign.
    let mut m = Mob::new(Vec2::zero(), MOB_STRENGTH);
    m.body.vel = Vec2::new(2048, -1024);
    let mut prev = len_sq(m.body.vel);
    for _ in 0..50 {
        let before = m.body.vel;
        m.update(34);
        let after = m.body.vel;
        assert!(after.x * before.x >= 0);
        assert!(after.z * before.z >= 0);
        let cur = len_sq(after);
        assert!(cur < prev, "speed must strictly drop while nonzero");
        prev = cur;
        if after.x == 0 && after.z == 0 {
            break;
        }
    }
}

#[test]
fn drag_first_tick_exact() {
    let mut m = Mob::new(Vec2::zero(), MOB_STRENGTH);
    m.body.vel = Vec2::new(2048, -1024);
    m.update(34);
    // speed = isqrt(2048^2 + 1024^2) = 2289, factor = ceil(31*2289*34 / 2^20) = 3
    assert_eq!(m.body.vel.x, 2048 * (1024 - 3) / 1024);
    assert_eq!(m.body.vel.z, -(1024 * (1024 - 3) / 1024));
}

#[test]
fn drag_saturates_instead_of_reversing() {
    // An extreme factor zeroes the velocity in one tick but never reverses it.
    let mut m = Mob::new(Vec2::zero(), MOB_STRENGTH);
    m.body.vel = Vec2::new(FX_LIMIT, -FX_LIMIT);
    m.update(DT_LIMIT);
    assert_eq!(m.body.vel.x, 0);
    assert_eq!(m.body.vel.z, 0);
}

#[test]
fn mob_integration_one_second_exact() {
    let mut m = Mob::new(Vec2::zero(), MOB_STRENGTH);
    assert_eq!(m.body.mass, MOB_MASS);
    assert_eq!(m.body.drag, DRAG_CONSTANT);
    assert_eq!(m.health, MOB_HEALTH);
    m.body.force = Vec2::new(1024, 0);
    m.update(1024);
    // acc = force/mass = 1024; vel = 1024 then dragged by factor 31.
    assert_eq!(m.body.acc.x, 1024);
    assert_eq!(m.body.vel.x, 993);
    assert_eq!(m.body.pos.x, 993);
    assert_eq!(m.body.force.x, 0);
    assert_eq!(m.body.force.z, 0);
    assert_eq!(m.last_damaged.elapsed, 1024);
}

#[test]
fn player_update_one_second_exact() {
    let mut p = Player::new(Vec2::zero());
    assert_eq!(p.health, PLAYER_HEALTH);
    p.set_target(Vec2::new(1024, 0));
    p.update(1024);
    // acc = 1024; cd = 983*1024/2048 + 41 = 532; factor = 532; vel = 492.
    assert_eq!(p.body.acc.x, 1024);
    assert_eq!(p.body.vel.x, 492);
    assert_eq!(p.body.pos.x, 492);
    assert_eq!(p.body.pos.z, 0);
}

#[test]
fn projectile_update_exact() {
    let mut pr = Projectile::new(Vec2::zero());
    assert_eq!(pr.damage, PROJECTILE_DAMAGE);
    pr.set_homing(Vec2::new(1024, 0));
    pr.update(512);
    // vel gain = 1024*512/1024 * 5120/1024 = 2560; factor = ceil(41*2560*512/2^20) = 52.
    assert_eq!(pr.body.vel.x, 2560 * (1024 - 52) / 1024);
    assert_eq!(pr.body.pos.x, pr.body.vel.x * 512 / 1024);
    assert_eq!(pr.lifetime.elapsed, 512);
}

#[test]
fn player_seek_converges_without_oscillation() {
    // From rest at distance 10 toward a stationary target: the approach is
    // strictly monotone until the player first comes within one unit, the
    // single overshoot past the target stays under two units, the distance
    // never exceeds its start, and the player settles within a tenth of a
    // unit of the target.
    let mut p = Player::new(Vec2::zero());
    p.set_target(Vec2::new(10240, 0));
    let target = Vec2::new(10240, 0);
    let start = len_sq(target.sub(p.body.pos));
    let mut prev: i64 = i64::MAX;
    let mut arrived = false;
    let mut last: i64 = start;
    for tick in 0..2000 {
        p.update(34);
        let d = target.sub(p.body.pos);
        let dsq = len_sq(d);
        if !arrived {
            assert!(dsq <= prev, "approach grew at tick {tick}: {dsq} > {prev}");
            if dsq <= 1024 * 1024 {
                arrived = true;
            }
        } else {
            assert!(dsq <= 2048 * 2048, "overshot two units at tick {tick}: {dsq}");
        }
        assert!(dsq <= start, "diverged at tick {tick}: {dsq}");
        prev = dsq;
        last = dsq;
    }
    assert!(arrived, "never reached the target");
    // Within a tenth of a world unit of the target at the end.
    assert!(last <= 102 * 102, "did not converge: squared distance {last}");
}
