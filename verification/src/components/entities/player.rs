//! The player's dash and shield.

use vstd::prelude::*;
use crate::angle::{arc_contains, arc_covers, HALF_TURN};
use crate::components::attributes::collider::Collider;
use crate::components::attributes::energy::Energy;
use crate::components::attributes::health::Health;
use crate::components::attributes::invulnerability::Invulnerability;
use crate::components::attributes::speed::Speed;
use crate::constants::boundaries::{clamped, GameBoundaries};
use crate::fixed::{fraction_of, portion};
use crate::geometry::Vec2;

verus! {

/// How near its target a player dash ends: 10 units.
pub const PLAYER_ARRIVAL_RADIUS: u64 = 10_000;

/// The origin, which stands for a cleared dash target or start.
pub open spec fn origin() -> Vec2 {
    Vec2 { x: 0, y: 0 }
}

/// The player's dash: `Ready` while `is_dashing` is false, `Dashing`
/// while it is true.
#[derive(Clone, Copy, Debug, PartialEq, Eq, Structural)]
pub struct PlayerDash {
    pub is_dashing: bool,
    /// Where the dash leads; meaningful only while dashing.
    pub dash_target: Vec2,
    /// Where the dash began; meaningful only while dashing.
    pub dash_start_position: Vec2,
    /// Travel rate of a dash, in thousandths of a unit per second.
    pub dash_speed: u32,
    /// Length of a dash, in thousandths of a unit.
    pub dash_distance: u32,
    /// Energy that a dash costs.
    pub energy_cost: u32,
    /// Leading share of the dash distance, in thousandths, over which the
    /// player cannot be damaged.
    pub invulnerability_percentage: u32,
}

impl PlayerDash {
    /// The dash of a player that has not dashed yet: ready, with a dash of
    /// 400 units at 800 units per second that costs 40 energy and is
    /// invulnerable over its first 30 percent.
    pub open spec fn fresh() -> PlayerDash {
        PlayerDash {
            is_dashing: false,
            dash_target: origin(),
            dash_start_position: origin(),
            dash_speed: 800_000,
            dash_distance: 400_000,
            energy_cost: 40_000,
            invulnerability_percentage: 300,
        }
    }

    /// Whether a dash may be triggered with the given energy.
    pub open spec fn may_dash(self, energy: Energy) -> bool {
        !self.is_dashing && energy.affords(self.energy_cost)
    }

    /// The state after a trigger from `start_position` along `direction`:
    /// dashing toward the point one dash distance away, held to the arena.
    /// A trigger while dashing changes nothing.
    pub open spec fn started(self, direction: Vec2, start_position: Vec2) -> PlayerDash {
        if self.is_dashing {
            self
        } else {
            PlayerDash {
                is_dashing: true,
                dash_target: clamped(
                    start_position.moved_along(direction, self.dash_distance as int),
                ),
                dash_start_position: start_position,
                ..self
            }
        }
    }

    /// Whether a dash is complete at `position`: the full dash distance
    /// lies between it and the start, or the target is nearer than the
    /// arrival radius.
    pub open spec fn complete_at(self, position: Vec2) -> bool {
        ||| !self.dash_start_position.closer_than(position, self.dash_distance as int)
        ||| position.closer_than(self.dash_target, PLAYER_ARRIVAL_RADIUS as int)
    }

    /// The `Ready` state: not dashing, target and start cleared.
    pub open spec fn cleared(self) -> PlayerDash {
        PlayerDash {
            is_dashing: false,
            dash_target: origin(),
            dash_start_position: origin(),
            ..self
        }
    }

    /// The state after the completion check at `position`.
    pub open spec fn updated(self, position: Vec2) -> PlayerDash {
        if self.is_dashing && self.complete_at(position) { self.cleared() } else { self }
    }

    /// The stretch from the start of a dash over which the player cannot
    /// be damaged.
    pub open spec fn invulnerable_distance(self) -> int {
        portion(self.dash_distance as int, self.invulnerability_percentage as int)
    }

    /// Whether the player is invulnerable at `position`: dashing, and not
    /// farther from the start than the invulnerable stretch.
    pub open spec fn invulnerable_at(self, position: Vec2) -> bool {
        self.is_dashing && self.dash_start_position.within(position, self.invulnerable_distance())
    }

    /// Whether a dash may be triggered with the given energy.
    pub fn can_dash(&self, energy: &Energy) -> (allowed: bool)
        ensures
            allowed == self.may_dash(*energy),
    {
        !self.is_dashing && energy.can_consume(self.energy_cost)
    }

    /// Starts a dash from `start_position` along `direction`. Does nothing
    /// while a dash is under way.
    pub fn start_dash(&mut self, direction: Vec2, start_position: Vec2)
        ensures
            *final(self) == old(self).started(direction, start_position),
    {
        if !self.is_dashing {
            self.is_dashing = true;
            let target: Vec2 = start_position.move_along(&direction, self.dash_distance);
            self.dash_target = GameBoundaries::clamp_position(target);
            self.dash_start_position = start_position;
        }
    }

    /// Checks at `current_position` whether the dash is complete, and ends
    /// it if so. Returns whether it ended on this call.
    pub fn update_dash(&mut self, current_position: Vec2, _delta_time: u64) -> (completed: bool)
        ensures
            completed == (old(self).is_dashing && old(self).complete_at(current_position)),
            *final(self) == old(self).updated(current_position),
    {
        if self.is_dashing {
            let travelled: bool = !self.dash_start_position.is_closer_than(
                &current_position,
                self.dash_distance as u64,
            );
            let arrived: bool = current_position.is_closer_than(
                &self.dash_target,
                PLAYER_ARRIVAL_RADIUS,
            );
            if travelled || arrived {
                self.reset_dash();
                return true;
            }
        }
        false
    }

    /// Ends the dash, complete or interrupted: back to `Ready`.
    pub fn reset_dash(&mut self)
        ensures
            *final(self) == old(self).cleared(),
            !final(self).is_dashing,
    {
        self.is_dashing = false;
        self.dash_target = Vec2::zero();
        self.dash_start_position = Vec2::zero();
    }

    /// Whether the dash makes the player invulnerable at
    /// `current_position`.
    pub fn should_be_invulnerable(&self, current_position: Vec2) -> (invulnerable: bool)
        ensures
            invulnerable == self.invulnerable_at(current_position),
    {
        if !self.is_dashing {
            return false;
        }
        let stretch: u64 = fraction_of(self.dash_distance, self.invulnerability_percentage);
        self.dash_start_position.is_within(&current_position, stretch)
    }
}

impl Default for PlayerDash {
    /// Ready, with a dash of 400 units at 800 units per second that costs
    /// 40 energy and is invulnerable over its first 30 percent.
    fn default() -> (dash: PlayerDash)
        ensures
            dash == PlayerDash::fresh(),
    {
        PlayerDash {
            is_dashing: false,
            dash_target: Vec2::zero(),
            dash_start_position: Vec2::zero(),
            dash_speed: 800_000,
            dash_distance: 400_000,
            energy_cost: 40_000,
            invulnerability_percentage: 300,
        }
    }
}

/// The player's directional shield: an arc centered on the aim direction.
#[derive(Clone, Copy, Debug, PartialEq, Eq, Structural)]
pub struct Shield {
    /// Share of the full circle that the arc covers, in thousandths.
    pub length: u32,
    /// The length that the arc grows or shrinks toward.
    pub target_length: u32,
    /// Change of the length per second, in thousandths.
    pub animation_speed: u32,
    /// Whether the shield is up.
    pub is_active: bool,
    /// Energy drawn per second while the shield is up.
    pub energy_drain_rate: u32,
    /// Energy that raising the shield costs.
    pub activation_energy_cost: u32,
    /// Share of the damage, in thousandths, that a block takes away.
    pub damage_reduction: u32,
}

impl Shield {
    /// The shield of a player that has not raised it yet: down, growing
    /// at three lengths per second, drawing 20 energy per second, costing
    /// 10 energy to raise and halving the damage it blocks.
    pub open spec fn fresh() -> Shield {
        Shield {
            length: 0,
            target_length: 0,
            animation_speed: 3000,
            is_active: false,
            energy_drain_rate: 20_000,
            activation_energy_cost: 10_000,
            damage_reduction: 500,
        }
    }

    /// The length of the arc and its target are at most the full circle,
    /// and the damage reduction is at most the whole.
    pub open spec fn wf(self) -> bool {
        &&& self.length <= 1000
        &&& self.target_length <= 1000
        &&& self.damage_reduction <= 1000
    }

    /// Whether the shield is up with an arc to block with.
    pub open spec fn raised(self) -> bool {
        self.is_active && self.length > 0
    }

    /// Half the angle of the arc: the length times half a turn.
    pub open spec fn half_arc(self) -> int {
        portion(HALF_TURN as int, self.length as int)
    }

    /// Whether an attack from the bearing `attack_angle` is blocked by the
    /// shield centered at `shield_center_angle`.
    pub open spec fn blocks(self, attack_angle: int, shield_center_angle: int) -> bool {
        self.raised() && arc_covers(shield_center_angle, self.half_arc(), attack_angle)
    }

    /// What is left of `damage` after a block: the share that the damage
    /// reduction does not take away, rounded down.
    pub open spec fn mitigated(self, damage: u32) -> int {
        if self.damage_reduction >= 1000 {
            0
        } else {
            portion(damage as int, 1000 - self.damage_reduction)
        }
    }

    /// Whether the shield may be raised with the given energy: it is down
    /// and the energy covers the activation cost.
    pub open spec fn may_activate(self, energy: Energy) -> bool {
        !self.is_active && energy.affords(self.activation_energy_cost)
    }

    /// The shield once raised toward `target_length`. Raising a shield
    /// that is up changes nothing.
    pub open spec fn activated(self, target_length: u32) -> Shield {
        if self.is_active {
            self
        } else {
            Shield { is_active: true, target_length, ..self }
        }
    }

    /// The shield told to come down: it shrinks toward nothing.
    pub open spec fn lowering(self) -> Shield {
        Shield { target_length: 0, ..self }
    }

    /// A lowered shield that halves blocked damage.
    pub fn new() -> (shield: Shield)
        ensures
            shield == Shield::fresh(),
            shield.wf(),
    {
        Shield {
            length: 0,
            target_length: 0,
            animation_speed: 3000,
            is_active: false,
            energy_drain_rate: 20_000,
            activation_energy_cost: 10_000,
            damage_reduction: 500,
        }
    }

    /// Raises the shield toward `target_length`. Does nothing if it is up.
    pub fn activate(&mut self, target_length: u32)
        ensures
            *final(self) == old(self).activated(target_length),
            old(self).wf() && target_length <= 1000 ==> final(self).wf(),
    {
        if !self.is_active {
            self.is_active = true;
            self.target_length = target_length;
        }
    }

    /// Tells the shield to come down. It stays up until it has shrunk to
    /// nothing.
    pub fn deactivate(&mut self)
        ensures
            *final(self) == old(self).lowering(),
            old(self).wf() ==> final(self).wf(),
    {
        self.target_length = 0;
    }

    /// Whether the shield may be raised with the given energy.
    pub fn can_activate(&self, energy: &Energy) -> (allowed: bool)
        ensures
            allowed == self.may_activate(*energy),
    {
        !self.is_active && energy.can_consume(self.activation_energy_cost)
    }

    /// Whether the shield, centered at `shield_center_angle`, blocks an
    /// attack from the bearing `attack_angle`.
    pub fn can_block_attack(&self, attack_angle: i32, shield_center_angle: i32) -> (blocked: bool)
        ensures
            blocked == self.blocks(attack_angle as int, shield_center_angle as int),
    {
        if !self.is_active || self.length == 0 {
            return false;
        }
        let half_arc: u64 = fraction_of(HALF_TURN as u32, self.length);
        arc_contains(shield_center_angle, half_arc, attack_angle)
    }

    /// What is left of `damage` after a block.
    pub fn reduce_damage(&self, damage: u32) -> (left: u32)
        ensures
            left == self.mitigated(damage),
            left <= damage,
    {
        if self.damage_reduction >= 1000 {
            0
        } else {
            let left: u64 = fraction_of(damage, 1000 - self.damage_reduction);
            proof {
                lemma_portion_bounded(damage as int, 1000 - self.damage_reduction);
            }
            left as u32
        }
    }
}

proof fn lemma_portion_bounded(amount: int, ratio: int)
    by (nonlinear_arith)
    requires
        0 <= amount,
        0 <= ratio <= 1000,
    ensures
        0 <= (amount * ratio) / 1000 <= amount,
{
}

/// The player's energy: 100 points.
pub const PLAYER_MAX_ENERGY: u32 = 100_000;

/// The player's energy recharge: 25 points per second.
pub const PLAYER_RECHARGE_RATE: u32 = 25_000;

/// The radius of the player: 25 units.
pub const PLAYER_RADIUS: u32 = 25_000;

/// The simulated state of the player.
#[derive(Clone, Copy, Debug, PartialEq, Eq, Structural)]
pub struct PlayerBundle {
    pub health: Health,
    pub speed: Speed,
    pub energy: Energy,
    pub collider: Collider,
    pub dash: PlayerDash,
    pub invulnerability: Invulnerability,
    pub position: Vec2,
}

impl PlayerBundle {
    /// The player as it enters play at `position`.
    pub open spec fn spawned(max_health: u32, speed: u32, position: Vec2) -> PlayerBundle {
        PlayerBundle {
            health: Health { current: max_health, max: max_health },
            speed: Speed { value: speed },
            energy: Energy {
                current: PLAYER_MAX_ENERGY,
                max: PLAYER_MAX_ENERGY,
                recharge_rate: PLAYER_RECHARGE_RATE,
            },
            collider: Collider { radius: PLAYER_RADIUS },
            dash: PlayerDash::fresh(),
            invulnerability: Invulnerability { active: false },
            position,
        }
    }

    /// A player at full health and energy, ready to dash, at `position`.
    pub fn new(max_health: u32, speed: u32, position: Vec2) -> (player: PlayerBundle)
        ensures
            player == Self::spawned(max_health, speed, position),
            player.health.wf(),
            player.energy.wf(),
    {
        PlayerBundle {
            health: Health::new(max_health),
            speed: Speed::new(speed),
            energy: Energy::new(PLAYER_MAX_ENERGY, PLAYER_RECHARGE_RATE),
            collider: Collider::new(PLAYER_RADIUS),
            dash: PlayerDash::default(),
            invulnerability: Invulnerability::new(),
            position,
        }
    }
}

/// Health and speed of a player.
#[derive(Clone, Copy, Debug, PartialEq, Eq, Structural)]
pub struct PlayerStatsBundle {
    pub health: Health,
    pub speed: Speed,
}

impl PlayerStatsBundle {
    /// Full health at the given maximum, and the given speed.
    pub fn new(max_health: u32, speed: u32) -> (stats: PlayerStatsBundle)
        ensures
            stats == (PlayerStatsBundle {
                health: Health { current: max_health, max: max_health },
                speed: Speed { value: speed },
            }),
    {
        PlayerStatsBundle { health: Health::new(max_health), speed: Speed::new(speed) }
    }
}

} // verus!
