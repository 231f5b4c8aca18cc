use arena_combat::components::attributes::{Collider, Health, Speed};
use arena_combat::components::entities::weapon::{Projectile, Weapon, WeaponBundle};
use arena_combat::geometry::Vec2;
use arena_combat::systems::weapon_systems::{
    projectile_boss_collision_system, projectile_lifetime_system, projectile_movement_system,
    weapon_firing_system, Aim, ProjectileBundle, PROJECTILE_LIFETIME, PROJECTILE_RADIUS,
};
use arena_combat::timer::TimerMode;

#[test]
fn weapon_period_follows_the_rate_of_fire() {
    let w = Weapon::new(5_000, 10_000, 400_000);
    assert_eq!(w.fire_rate, 5_000);
    assert_eq!(w.damage, 10_000);
    assert_eq!(w.projectile_speed, 400_000);
    assert!(!w.is_firing);
    assert_eq!(w.fire_timer.duration, 200_000_000);
    assert_eq!(w.fire_timer.mode, TimerMode::Repeating);
    assert!(!w.can_fire());
    assert_eq!(Weapon::new(3_000, 0, 0).fire_timer.duration, 333_333_333);
    assert_eq!(WeaponBundle::new(5_000, 10_000, 400_000).weapon, w);
}

#[test]
fn weapon_can_fire_when_its_period_runs_out() {
    let mut w = Weapon::new(5_000, 10_000, 400_000);
    w.update(199_999_999);
    assert!(!w.can_fire());
    w.update(1);
    assert!(w.can_fire());
    w.update(1);
    assert!(!w.can_fire());
    w.update(250_000_000);
    assert!(w.can_fire());
    assert_eq!(w.fire_timer.elapsed(), 50_000_001);
    w.fire();
    assert!(!w.can_fire());
    assert_eq!(w.fire_timer.elapsed(), 0);
}

#[test]
fn projectile_direction_is_one_unit_long() {
    assert_eq!(Projectile::new(1, Vec2::new(5, 0), 10).direction, Vec2::new(1_000, 0));
    assert_eq!(Projectile::new(1, Vec2::new(-30, 40), 10).direction, Vec2::new(-600, 800));
    assert_eq!(Projectile::new(1, Vec2::new(7, 7), 10).direction, Vec2::new(707, 707));
    assert_eq!(Projectile::new(1, Vec2::zero(), 10).direction, Vec2::zero());
}

#[test]
fn projectile_expires_after_its_lifetime() {
    let mut p = Projectile::new(10_000, Vec2::new(1, 0), 3_000_000_000);
    assert_eq!(p.lifetime, 3_000_000_000);
    assert!(!p.update(2_999_999_999));
    assert!(p.update(1));
    assert!(p.update(1));
    let mut q = Projectile::new(10_000, Vec2::new(1, 0), 3_000_000_000);
    assert!(!projectile_lifetime_system(&mut q, 1_000_000_000));
    assert!(!projectile_lifetime_system(&mut q, 1_000_000_000));
    assert!(projectile_lifetime_system(&mut q, 1_000_000_000));
}

#[test]
fn projectile_flies_along_its_direction() {
    let p = Projectile::new(10_000, Vec2::new(-3, 4), 3_000_000_000);
    let speed = Speed::new(400_000);
    let mut position = Vec2::new(1_000, 1_000);
    projectile_movement_system(&mut position, &p, &speed, 10_000_000);
    assert_eq!(position, Vec2::new(-1_400, 4_200));
    let still = Projectile::new(10_000, Vec2::zero(), 3_000_000_000);
    projectile_movement_system(&mut position, &still, &speed, 10_000_000);
    assert_eq!(position, Vec2::new(-1_400, 4_200));
}

#[test]
fn projectile_damages_the_boss_it_overlaps() {
    let p = Projectile::new(10_000, Vec2::new(1, 0), 3_000_000_000);
    let small = Collider::new(PROJECTILE_RADIUS);
    let body = Collider::new(30_000);
    let mut health = Health::new(25_000);
    assert!(!projectile_boss_collision_system(
        Vec2::new(33_000, 0),
        &p,
        &small,
        Vec2::zero(),
        &mut health,
        &body
    ));
    assert_eq!(health.current, 25_000);
    assert!(projectile_boss_collision_system(
        Vec2::new(32_999, 0),
        &p,
        &small,
        Vec2::zero(),
        &mut health,
        &body
    ));
    assert_eq!(health.current, 15_000);
    assert!(projectile_boss_collision_system(Vec2::zero(), &p, &small, Vec2::zero(), &mut health, &body));
    assert!(projectile_boss_collision_system(Vec2::zero(), &p, &small, Vec2::zero(), &mut health, &body));
    assert_eq!(health.current, 0);
    assert!(!health.is_alive());
}

#[test]
fn weapon_fires_toward_the_aim_when_ready() {
    let mut w = Weapon::new(5_000, 10_000, 400_000);
    let aim = Aim { muzzle: Vec2::new(32_000, 0), target: Vec2::new(32_000, 500_000) };
    assert_eq!(weapon_firing_system(&mut w, Some(aim), 100_000_000), None);
    assert!(w.is_firing);
    let shot = weapon_firing_system(&mut w, Some(aim), 100_000_000);
    assert_eq!(
        shot,
        Some(ProjectileBundle::new(10_000, Vec2::new(0, 1), 400_000, PROJECTILE_LIFETIME, Vec2::new(32_000, 0)))
    );
    let bundle = shot.unwrap();
    assert_eq!(bundle.projectile.direction, Vec2::new(0, 1_000));
    assert_eq!(bundle.projectile.damage, 10_000);
    assert_eq!(bundle.projectile.lifetime, 3_000_000_000);
    assert_eq!(bundle.speed.value, 400_000);
    assert_eq!(bundle.collider.radius, 3_000);
    assert_eq!(bundle.position, Vec2::new(32_000, 0));
    assert_eq!(w.fire_timer.elapsed(), 0);
    assert!(!w.can_fire());
}

#[test]
fn weapon_without_an_aim_holds_its_fire() {
    let mut w = Weapon::new(5_000, 10_000, 400_000);
    assert_eq!(weapon_firing_system(&mut w, None, 200_000_000), None);
    assert!(w.can_fire());
    assert_eq!(weapon_firing_system(&mut w, None, 100_000_000), None);
    assert!(!w.can_fire());
}
