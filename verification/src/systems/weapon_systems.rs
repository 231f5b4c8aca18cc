//! Firing the weapon and the flight of its projectiles.

use vstd::prelude::*;
use crate::components::attributes::collider::Collider;
use crate::components::attributes::health::Health;
use crate::components::attributes::speed::Speed;
use crate::components::entities::weapon::{Projectile, Weapon};
use crate::fixed::scale_rate;
use crate::geometry::Vec2;
use crate::systems::boss_systems::stride;

verus! {

/// How long a projectile lasts: three seconds.
pub const PROJECTILE_LIFETIME: u64 = 3_000_000_000;

/// The radius of a projectile: 3 units.
pub const PROJECTILE_RADIUS: u32 = 3_000;

/// Where a shot leaves the weapon and what it is aimed at.
#[derive(Clone, Copy, Debug, PartialEq, Eq, Structural)]
pub struct Aim {
    /// Position of the muzzle.
    pub muzzle: Vec2,
    /// Point that the shot is aimed at.
    pub target: Vec2,
}

/// A projectile as it leaves the weapon.
#[derive(Clone, Copy, Debug, PartialEq, Eq, Structural)]
pub struct ProjectileBundle {
    pub projectile: Projectile,
    pub speed: Speed,
    pub collider: Collider,
    pub position: Vec2,
}

impl ProjectileBundle {
    /// The projectile that starts at `position` along `direction`.
    pub open spec fn launched(
        damage: u32,
        direction: Vec2,
        speed: u32,
        lifetime: u64,
        position: Vec2,
    ) -> ProjectileBundle {
        ProjectileBundle {
            projectile: Projectile {
                damage,
                direction: Projectile::unit_direction(direction),
                lifetime,
                lifetime_timer: crate::timer::Timer {
                    duration: lifetime,
                    elapsed: 0,
                    finished: false,
                    mode: crate::timer::TimerMode::Once,
                },
            },
            speed: Speed { value: speed },
            collider: Collider { radius: PROJECTILE_RADIUS },
            position,
        }
    }

    /// A projectile of radius [`PROJECTILE_RADIUS`] that starts at
    /// `position` and flies along `direction` at `speed`.
    pub fn new(damage: u32, direction: Vec2, speed: u32, lifetime: u64, position: Vec2) -> (bundle: ProjectileBundle)
        ensures
            bundle == Self::launched(damage, direction, speed, lifetime, position),
    {
        ProjectileBundle {
            projectile: Projectile::new(damage, direction, lifetime),
            speed: Speed::new(speed),
            collider: Collider::new(PROJECTILE_RADIUS),
            position,
        }
    }
}

/// The direction from the muzzle to the target of an aim.
pub open spec fn aim_direction(aim: Aim) -> Vec2 {
    Vec2 {
        x: crate::geometry::held_coordinate(aim.target.x - aim.muzzle.x),
        y: crate::geometry::held_coordinate(aim.target.y - aim.muzzle.y),
    }
}

/// Whether the weapon fires on this tick: the time between two shots runs
/// out on it and there is something to aim at.
pub open spec fn fires(weapon: Weapon, aim: Option<Aim>, delta_time: u64) -> bool {
    weapon.fire_timer.ticked(delta_time).finished && aim is Some
}

/// The weapon after this tick: its timer has ticked, the trigger is held,
/// and a shot starts the time to the next one anew.
pub open spec fn weapon_after_tick(weapon: Weapon, aim: Option<Aim>, delta_time: u64) -> Weapon {
    let ticked = weapon.fire_timer.ticked(delta_time);
    Weapon {
        fire_timer: if fires(weapon, aim, delta_time) { ticked.cleared() } else { ticked },
        is_firing: true,
        ..weapon
    }
}

fn direction_of(aim: &Aim) -> (direction: Vec2)
    ensures
        direction == aim_direction(*aim),
{
    let dx: i64 = aim.target.x as i64 - aim.muzzle.x as i64;
    let dy: i64 = aim.target.y as i64 - aim.muzzle.y as i64;
    let x: i32 = if dx < i32::MIN as i64 {
        i32::MIN
    } else if dx > i32::MAX as i64 {
        i32::MAX
    } else {
        dx as i32
    };
    let y: i32 = if dy < i32::MIN as i64 {
        i32::MIN
    } else if dy > i32::MAX as i64 {
        i32::MAX
    } else {
        dy as i32
    };
    Vec2 { x, y }
}

/// Advances the weapon by one tick with the trigger held. When the time
/// between two shots runs out and there is an aim, a projectile leaves the
/// muzzle toward the target.
pub fn weapon_firing_system(weapon: &mut Weapon, aim: Option<Aim>, delta_time: u64) -> (shot: Option<ProjectileBundle>)
    ensures
        *final(weapon) == weapon_after_tick(*old(weapon), aim, delta_time),
        shot == match aim {
            Some(a) => if fires(*old(weapon), aim, delta_time) {
                Some(
                    ProjectileBundle::launched(
                        old(weapon).damage,
                        aim_direction(a),
                        old(weapon).projectile_speed,
                        PROJECTILE_LIFETIME,
                        a.muzzle,
                    ),
                )
            } else {
                None
            },
            None => None,
        },
{
    weapon.update(delta_time);
    weapon.is_firing = true;
    if weapon.is_firing && weapon.can_fire() {
        match aim {
            Some(a) => {
                let direction: Vec2 = direction_of(&a);
                let bundle: ProjectileBundle = ProjectileBundle::new(
                    weapon.damage,
                    direction,
                    weapon.projectile_speed,
                    PROJECTILE_LIFETIME,
                    a.muzzle,
                );
                weapon.fire();
                return Some(bundle);
            },
            None => {},
        }
    }
    None
}

/// Moves a projectile along its direction for one tick.
pub fn projectile_movement_system(position: &mut Vec2, projectile: &Projectile, speed: &Speed, delta_time: u64)
    ensures
        *final(position) == old(position).moved_along(
            projectile.direction,
            stride(speed.value, delta_time),
        ),
{
    let step: u32 = scale_rate(speed.value, delta_time);
    *position = position.move_along(&projectile.direction, step);
}

/// Ages a projectile by one tick. Returns whether its lifetime is over
/// and it is to be removed.
pub fn projectile_lifetime_system(projectile: &mut Projectile, delta_time: u64) -> (expired: bool)
    ensures
        *final(projectile) == (Projectile {
            lifetime_timer: old(projectile).lifetime_timer.ticked(delta_time),
            ..*old(projectile)
        }),
        expired == final(projectile).lifetime_timer.finished,
{
    projectile.update(delta_time)
}

/// Resolves a projectile against the adversary: where their circles
/// overlap, the adversary takes the projectile's damage. Returns whether
/// the projectile hit and is to be removed.
pub fn projectile_boss_collision_system(
    projectile_position: Vec2,
    projectile: &Projectile,
    projectile_collider: &Collider,
    boss_position: Vec2,
    boss_health: &mut Health,
    boss_collider: &Collider,
) -> (hit: bool)
    ensures
        hit == projectile_collider.touches(projectile_position, *boss_collider, boss_position),
        *final(boss_health) == if hit {
            old(boss_health).damaged(projectile.damage)
        } else {
            *old(boss_health)
        },
{
    if projectile_collider.overlaps(&projectile_position, boss_collider, &boss_position) {
        boss_health.take_damage(projectile.damage);
        true
    } else {
        false
    }
}

} // verus!
