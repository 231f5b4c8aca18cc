//! Hit points of an actor.

use vstd::prelude::*;
use crate::fixed::{max_int, min_int};

verus! {

/// Current and greatest health of an actor, in thousandths of a point.
#[derive(Clone, Copy, Debug, PartialEq, Eq, Structural)]
pub struct Health {
    pub current: u32,
    pub max: u32,
}

/// One change to an actor's health.
#[derive(Clone, Copy, Debug, PartialEq, Eq, Structural)]
pub enum HealthChange {
    /// Damage taken.
    Damage(u32),
    /// Health restored.
    Heal(u32),
}

impl Health {
    /// The current health lies between zero and the maximum.
    pub open spec fn wf(self) -> bool {
        0 <= self.current <= self.max
    }

    /// The health after `damage`: lowered by it, but not below zero.
    pub open spec fn damaged(self, damage: u32) -> Health {
        Health { current: max_int(self.current - damage, 0) as u32, max: self.max }
    }

    /// The health after healing by `amount`: raised by it, but not above
    /// the maximum.
    pub open spec fn healed(self, amount: u32) -> Health {
        Health { current: min_int(self.current + amount, self.max as int) as u32, max: self.max }
    }

    /// The health after one change.
    pub open spec fn changed(self, change: HealthChange) -> Health {
        match change {
            HealthChange::Damage(damage) => self.damaged(damage),
            HealthChange::Heal(amount) => self.healed(amount),
        }
    }

    /// The health after a sequence of changes, applied in order.
    pub open spec fn changed_by_all(self, changes: Seq<HealthChange>) -> Health
        decreases changes.len(),
    {
        if changes.len() == 0 {
            self
        } else {
            self.changed_by_all(changes.drop_last()).changed(changes.last())
        }
    }

    /// Whether any health is left.
    pub open spec fn alive(self) -> bool {
        self.current > 0
    }

    /// The current health as a share of the maximum in thousandths, not
    /// held to the whole; zero where the maximum is zero.
    pub open spec fn share(self) -> int {
        if self.max > 0 { (self.current * 1000) / (self.max as int) } else { 0 }
    }

    /// Full health at the given maximum.
    pub fn new(max_health: u32) -> (health: Health)
        ensures
            health == (Health { current: max_health, max: max_health }),
            health.wf(),
    {
        Health { current: max_health, max: max_health }
    }

    /// The share of the maximum that is left, in thousandths between 0 and
    /// 1000; zero where the maximum is zero.
    pub fn percentage(&self) -> (ratio: u32)
        ensures
            ratio == min_int(self.share(), 1000),
            0 <= ratio <= 1000,
    {
        let share: u64 = self.health_percentage();
        if share > 1000 { 1000 } else { share as u32 }
    }

    /// Lowers the current health by `damage`, stopping at zero.
    pub fn take_damage(&mut self, damage: u32)
        ensures
            *final(self) == old(self).damaged(damage),
            final(self).current <= old(self).current,
            old(self).wf() ==> final(self).wf(),
    {
        self.current = self.current.saturating_sub(damage);
    }

    /// Whether any health is left.
    pub fn is_alive(&self) -> (alive: bool)
        ensures
            alive == self.alive(),
    {
        self.current > 0
    }

    /// Raises the current health by `amount`, stopping at the maximum.
    pub fn heal(&mut self, amount: u32)
        ensures
            *final(self) == old(self).healed(amount),
            final(self).wf(),
    {
        let raised: u64 = self.current as u64 + amount as u64;
        self.current = if raised > self.max as u64 { self.max } else { raised as u32 };
    }

    /// The share of the maximum that is left, in thousandths and not held
    /// to the whole; zero where the maximum is zero.
    pub fn health_percentage(&self) -> (ratio: u64)
        ensures
            ratio == self.share(),
    {
        if self.max > 0 {
            (self.current as u64 * 1000) / (self.max as u64)
        } else {
            0
        }
    }
}

/// Health bound: whatever damage and healing a well-formed health
/// receives, in whatever order, its current value stays between zero and
/// its maximum, and the maximum stays what it was.
pub proof fn lemma_health_stays_bounded(health: Health, changes: Seq<HealthChange>)
    requires
        health.wf(),
    ensures
        health.changed_by_all(changes).wf(),
        health.changed_by_all(changes).max == health.max,
    decreases changes.len(),
{
    if changes.len() > 0 {
        lemma_health_stays_bounded(health, changes.drop_last());
    }
}

} // verus!
