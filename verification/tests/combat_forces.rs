use amplitude::fx::{FX_LIMIT, FX_ONE};
use amplitude::vec2::Vec2;
use amplitude::color::{Rgb, color_lerp, attacked_color};
use amplitude::mob::{Mob, get_mob_type, MOB_STRENGTH};
use amplitude::player::{Player, Projectile, PLAYER_HEALTH};
use amplitude::forces::{compute_forces, apply_forces};
use amplitude::combat::{
    first_hit, resolve_projectiles, player_mob_interaction, retain_live_mobs,
    retain_projectiles, COLLISION_RADIUS_SQ,
};
use amplitude::waves::wave_size;

#[test]
fn wave_size_table() {
    assert_eq!(wave_size(0), 2);
    assert_eq!(wave_size(1), 3);
    assert_eq!(wave_size(2), 4);
    assert_eq!(wave_size(5), 25);
    assert_eq!(wave_size(10), 100);
    assert_eq!(wave_size(65535), 65535 * 65535);
}

#[test]
fn mob_type_thresholds() {
    assert_eq!(get_mob_type(0), Rgb { r: 1024, g: 1024, b: 1024 });
    assert_eq!(get_mob_type(512), Rgb { r: 1024, g: 1024, b: 1024 });
    assert_eq!(get_mob_type(1024), Rgb { r: 1024, g: 922, b: 922 });
    assert_eq!(get_mob_type(2047), Rgb { r: 1024, g: 922, b: 922 });
    assert_eq!(get_mob_type(2048), Rgb { r: 1024, g: 614, b: 614 });
    assert_eq!(get_mob_type(3072), Rgb { r: 1024, g: 614, b: 614 });
}

#[test]
fn color_lerp_exact() {
    let from = attacked_color();
    let to = Rgb { r: 1024, g: 1024, b: 1024 };
    let mid = color_lerp(from, to, 512);
    assert_eq!(mid, Rgb { r: 973, g: 717, b: 717 });
    assert_eq!(color_lerp(from, to, 0), from);
    assert_eq!(color_lerp(from, to, 1024), to);
}

#[test]
fn damage_flash_blend() {
    let mut m = Mob::new(Vec2::zero(), MOB_STRENGTH);
    let base = m.color;
    // A fresh mob's flash timer starts at zero, so it flashes once at spawn.
    assert_eq!(m.render_color(), attacked_color());
    m.update(1024);
    assert_eq!(m.render_color(), base);
    m.damage(1024);
    assert_eq!(m.health, 10240 - 1024);
    assert_eq!(m.last_damaged.elapsed, 0);
    // Right after damage the shown colour is the attacked flash colour.
    assert_eq!(m.render_color(), attacked_color());
    m.update(256);
    // Halfway through the flash window: blended halfway back to base.
    assert_eq!(m.render_color(), color_lerp(attacked_color(), base, 512));
    m.update(512);
    // Past the window: the base colour again.
    assert_eq!(m.render_color(), base);
}

#[test]
fn two_mob_forces_exact() {
    // Mobs one unit apart on the x axis, player on the first mob.
    let positions = vec![Vec2::new(0, 0), Vec2::new(1024, 0)];
    let forces = compute_forces(&positions, Vec2::new(0, 0));
    assert_eq!(forces.len(), 2);
    // Mob 0: attraction +1024, repulsion 3072/1.0 = 3072 on x; the zero z
    // separation is clamped to the epsilon, 3072/(16/1024) = 196608.
    assert_eq!(forces[0].x, 1024 - 3072);
    assert_eq!(forces[0].z, -196608);
    // Mob 1: attraction -1024, repulsion -3072 on x, player pull -1024.
    assert_eq!(forces[1].x, -1024 + 3072 - 1024);
    assert_eq!(forces[1].z, -196608);
}

#[test]
fn coincident_mobs_stay_finite() {
    // The singular case: two mobs at the same point. Forces stay bounded and
    // one full force-and-integrate step leaves every value a stored one.
    let positions = vec![Vec2::new(512, 512), Vec2::new(512, 512)];
    let forces = compute_forces(&positions, Vec2::new(512, 512));
    for f in [forces[0], forces[1]] {
        assert!(f.x.abs() <= FX_LIMIT);
        assert!(f.z.abs() <= FX_LIMIT);
    }
    // Both separations clamp to +epsilon: repulsion 196608 on each axis.
    assert_eq!(forces[0].x, -196608);
    assert_eq!(forces[0].z, -196608);
    assert_eq!(forces[1].x, -196608);
    assert_eq!(forces[1].z, -196608);
    let mut mobs = vec![
        Mob::new(Vec2::new(512, 512), MOB_STRENGTH),
        Mob::new(Vec2::new(512, 512), MOB_STRENGTH),
    ];
    apply_forces(&mut mobs, &forces);
    for m in mobs.iter_mut() {
        m.update(34);
        assert!(m.body.pos.x.abs() <= FX_LIMIT);
        assert!(m.body.pos.z.abs() <= FX_LIMIT);
        assert!(m.body.pos.x < 512);
        assert!(m.body.pos.z < 512);
    }
    assert_eq!(mobs[0].body.pos, mobs[1].body.pos);
}

#[test]
fn attraction_cuts_off_at_range() {
    // Mobs 11 units apart: repulsion only, no attraction term.
    let positions = vec![Vec2::new(0, 0), Vec2::new(11264, 0)];
    let forces = compute_forces(&positions, Vec2::new(0, 0));
    // 3072/11 in fixed point: 3145728 / 11264 = 279.
    assert_eq!(forces[0].x, -(3145728 / 11264));
    assert_eq!(forces[0].z, -196608);
}

#[test]
fn first_hit_picks_lowest_index() {
    let far = Mob::new(Vec2::new(10240, 10240), MOB_STRENGTH);
    let near1 = Mob::new(Vec2::new(100, 0), MOB_STRENGTH);
    let near2 = Mob::new(Vec2::new(0, 100), MOB_STRENGTH);
    let mobs = vec![far, near1, near2];
    assert_eq!(first_hit(&mobs, Vec2::zero()), Some(1));
    let none = first_hit(&mobs, Vec2::new(-20480, -20480));
    assert_eq!(none, None);
    // The radius is a strict bound.
    assert!(100 * 100 < COLLISION_RADIUS_SQ);
}

#[test]
fn first_hit_wins_one_projectile_two_mobs() {
    // One projectile overlapping two mobs: exactly one mob (the first in
    // registry order) loses health, and the projectile is marked.
    let mut mobs = vec![
        Mob::new(Vec2::new(100, 0), MOB_STRENGTH),
        Mob::new(Vec2::new(0, 100), MOB_STRENGTH),
    ];
    let projs = vec![Projectile::new(Vec2::zero())];
    let marks = resolve_projectiles(&mut mobs, &projs);
    assert_eq!(marks, vec![true]);
    assert_eq!(mobs[0].health, 10240 - 3072);
    assert_eq!(mobs[1].health, 10240);
    assert_eq!(mobs[0].last_damaged.elapsed, 0);
    let mut remaining = projs;
    retain_projectiles(&mut remaining, &marks);
    assert_eq!(remaining.len(), 0);
}

#[test]
fn despawn_drops_exactly_dead_mobs() {
    let mut a = Mob::new(Vec2::zero(), MOB_STRENGTH);
    a.health = 1;
    let mut b = Mob::new(Vec2::new(1024, 0), MOB_STRENGTH);
    b.health = 0;
    let mut c = Mob::new(Vec2::new(2048, 0), MOB_STRENGTH);
    c.health = -5;
    let mut mobs = vec![a, b, c];
    retain_live_mobs(&mut mobs);
    assert_eq!(mobs.len(), 1);
    assert_eq!(mobs[0].body.pos, Vec2::new(0, 0));
}

#[test]
fn proximity_drains_player_health() {
    let mut player = Player::new(Vec2::zero());
    let near = Mob::new(Vec2::new(1024, 0), MOB_STRENGTH);
    let far = Mob::new(Vec2::new(10240, 0), MOB_STRENGTH);
    let mobs = vec![near, far];
    player_mob_interaction(&mut player, &mobs, 1024);
    // Only the near mob drains: strength 1.0 times one second.
    assert_eq!(player.health, PLAYER_HEALTH - 1024);
    assert_eq!(player.body.pos, Vec2::zero());
}

#[test]
fn expired_projectile_is_removed_without_hit() {
    let mut pr = Projectile::new(Vec2::new(10240, 10240));
    // Advance past the lifetime with no mobs around.
    for _ in 0..11 {
        pr.update(1024);
    }
    assert!(pr.lifetime.elapsed >= amplitude::player::PROJECTILE_LIFETIME);
    let mut projs = vec![pr];
    let mut mobs: Vec<Mob> = Vec::new();
    let marks = resolve_projectiles(&mut mobs, &projs);
    assert_eq!(marks, vec![false]);
    retain_projectiles(&mut projs, &marks);
    assert_eq!(projs.len(), 0);
}

#[test]
fn saturating_scale_keeps_range() {
    let v = Vec2::new(FX_LIMIT, -FX_LIMIT);
    let s = v.scale(FX_ONE * 4);
    assert_eq!(s.x, FX_LIMIT);
    assert_eq!(s.z, -FX_LIMIT);
}
