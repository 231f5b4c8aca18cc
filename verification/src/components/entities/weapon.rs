//! The player's weapon and what it fires.

use vstd::prelude::*;
use crate::components::entities::player::origin;
use crate::fixed::UNIT;
use crate::geometry::Vec2;
use crate::timer::{Timer, TimerMode};

verus! {

/// Nanoseconds between two shots at one thousandth of a shot per second.
pub const SHOT_PERIOD_SCALE: u64 = 1_000_000_000_000;

/// A weapon that fires at a steady rate.
#[derive(Clone, Copy, Debug, PartialEq, Eq, Structural)]
pub struct Weapon {
    /// Shots per second, in thousandths.
    pub fire_rate: u32,
    /// Repeating timer over the time between two shots.
    pub fire_timer: Timer,
    /// Damage of each projectile.
    pub damage: u32,
    /// Travel rate of each projectile, in thousandths of a unit per second.
    pub projectile_speed: u32,
    /// Whether the trigger is held.
    pub is_firing: bool,
}

impl Weapon {
    /// The time between two shots at `fire_rate`, in nanoseconds.
    pub open spec fn shot_period(fire_rate: u32) -> int {
        SHOT_PERIOD_SCALE as int / fire_rate as int
    }

    /// A weapon at rest with the given rate of fire.
    pub fn new(fire_rate: u32, damage: u32, projectile_speed: u32) -> (weapon: Weapon)
        requires
            fire_rate > 0,
        ensures
            weapon == (Weapon {
                fire_rate,
                fire_timer: Timer {
                    duration: Self::shot_period(fire_rate) as u64,
                    elapsed: 0,
                    finished: false,
                    mode: TimerMode::Repeating,
                },
                damage,
                projectile_speed,
                is_firing: false,
            }),
    {
        Weapon {
            fire_rate,
            fire_timer: Timer::new(SHOT_PERIOD_SCALE / fire_rate as u64, TimerMode::Repeating),
            damage,
            projectile_speed,
            is_firing: false,
        }
    }

    /// Whether the time between two shots has just run out.
    pub fn can_fire(&self) -> (ready: bool)
        ensures
            ready == self.fire_timer.finished,
    {
        self.fire_timer.finished()
    }

    /// Records a shot: the time to the next one starts anew.
    pub fn fire(&mut self)
        ensures
            *final(self) == (Weapon { fire_timer: old(self).fire_timer.cleared(), ..*old(self) }),
    {
        self.fire_timer.reset();
    }

    /// Lets `delta_time` nanoseconds pass.
    pub fn update(&mut self, delta_time: u64)
        ensures
            *final(self) == (Weapon {
                fire_timer: old(self).fire_timer.ticked(delta_time),
                ..*old(self)
            }),
    {
        self.fire_timer.tick(delta_time);
    }
}

/// A projectile in flight.
#[derive(Clone, Copy, Debug, PartialEq, Eq, Structural)]
pub struct Projectile {
    /// Damage dealt on impact.
    pub damage: u32,
    /// Direction of flight: a vector one unit long, or zero.
    pub direction: Vec2,
    /// Nanoseconds that the projectile lasts.
    pub lifetime: u64,
    /// One-shot timer over the lifetime.
    pub lifetime_timer: Timer,
}

impl Projectile {
    /// The vector one unit long along `direction`; zero for the zero
    /// direction.
    pub open spec fn unit_direction(direction: Vec2) -> Vec2 {
        origin().moved_along(direction, UNIT as int)
    }

    /// A projectile that flies along `direction` for `lifetime`
    /// nanoseconds.
    pub fn new(damage: u32, direction: Vec2, lifetime: u64) -> (projectile: Projectile)
        ensures
            projectile == (Projectile {
                damage,
                direction: Self::unit_direction(direction),
                lifetime,
                lifetime_timer: Timer {
                    duration: lifetime,
                    elapsed: 0,
                    finished: false,
                    mode: TimerMode::Once,
                },
            }),
    {
        Projectile {
            damage,
            direction: Vec2::zero().move_along(&direction, UNIT),
            lifetime,
            lifetime_timer: Timer::new(lifetime, TimerMode::Once),
        }
    }

    /// Lets `delta_time` nanoseconds pass. Returns whether the lifetime is
    /// over.
    pub fn update(&mut self, delta_time: u64) -> (expired: bool)
        ensures
            *final(self) == (Projectile {
                lifetime_timer: old(self).lifetime_timer.ticked(delta_time),
                ..*old(self)
            }),
            expired == final(self).lifetime_timer.finished,
    {
        self.lifetime_timer.tick(delta_time);
        self.lifetime_timer.finished()
    }
}

/// A weapon as it is attached to the player.
#[derive(Clone, Copy, Debug, PartialEq, Eq, Structural)]
pub struct WeaponBundle {
    pub weapon: Weapon,
}

impl WeaponBundle {
    /// A weapon at rest with the given rate of fire.
    pub fn new(fire_rate: u32, damage: u32, projectile_speed: u32) -> (bundle: WeaponBundle)
        requires
            fire_rate > 0,
        ensures
            bundle.weapon.fire_rate == fire_rate,
            bundle.weapon.damage == damage,
            bundle.weapon.projectile_speed == projectile_speed,
            !bundle.weapon.is_firing,
            bundle.weapon.fire_timer == (Timer {
                duration: Weapon::shot_period(fire_rate) as u64,
                elapsed: 0,
                finished: false,
                mode: TimerMode::Repeating,
            }),
    {
        WeaponBundle { weapon: Weapon::new(fire_rate, damage, projectile_speed) }
    }
}

} // verus!
