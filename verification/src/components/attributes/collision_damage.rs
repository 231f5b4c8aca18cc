//! Damage dealt at intervals while two actors stay in contact.

use vstd::prelude::*;
use crate::fixed::{accrued, saturated, scale_rate};

verus! {

/// Periodic contact damage: one fixed quantum per interval.
#[derive(Clone, Copy, Debug, PartialEq, Eq, Structural)]
pub struct CollisionDamage {
    /// Damage per second of contact, in thousandths of a point.
    pub damage_per_second: u32,
    /// Simulation time of the last application, in nanoseconds.
    pub last_damage_time: u64,
    /// Least time between two applications, in nanoseconds.
    pub damage_interval: u64,
}

impl CollisionDamage {
    /// Whether a full interval has passed since the last application.
    pub open spec fn due(self, current_time: u64) -> bool {
        current_time - self.last_damage_time >= self.damage_interval
    }

    /// The damage of one application: what accrues over one interval at
    /// the rate per second, whatever time has really passed.
    pub open spec fn quantum(self) -> int {
        saturated(accrued(self.damage_per_second as int, self.damage_interval as int))
    }

    /// Contact damage that has not been applied yet.
    pub fn new(damage_per_second: u32, damage_interval: u64) -> (c: CollisionDamage)
        ensures
            c == (CollisionDamage { damage_per_second, last_damage_time: 0, damage_interval }),
    {
        CollisionDamage { damage_per_second, last_damage_time: 0, damage_interval }
    }

    /// Whether damage may be applied at `current_time`.
    pub fn can_damage(&self, current_time: u64) -> (due: bool)
        ensures
            due == self.due(current_time),
    {
        current_time >= self.last_damage_time
            && current_time - self.last_damage_time >= self.damage_interval
    }

    /// Records an application at `current_time` and returns its damage.
    pub fn apply_damage(&mut self, current_time: u64) -> (damage: u32)
        ensures
            damage == old(self).quantum(),
            *final(self) == (CollisionDamage { last_damage_time: current_time, ..*old(self) }),
    {
        self.last_damage_time = current_time;
        scale_rate(self.damage_per_second, self.damage_interval)
    }
}

} // verus!
