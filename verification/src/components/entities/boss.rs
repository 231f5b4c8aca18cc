//! The adversary's dash and its spin.

use vstd::prelude::*;
use crate::components::attributes::collider::Collider;
use crate::components::attributes::collision_damage::CollisionDamage;
use crate::components::attributes::health::Health;
use crate::components::attributes::speed::Speed;
use crate::components::entities::player::origin;
use crate::geometry::Vec2;
use crate::timer::{Timer, TimerMode};

verus! {

/// How near its target an adversary dash ends: 50 units.
pub const BOSS_ARRIVAL_RADIUS: u64 = 50_000;

/// Movement per tick below which a dashing adversary counts as stuck:
/// 1 unit.
pub const STUCK_MOVEMENT: u64 = 1_000;

/// Consecutive stuck ticks after which a dash is given up.
pub const STUCK_FRAME_LIMIT: u32 = 10;

/// The adversary's dash: `Ready` while `is_dashing` is false, `Dashing`
/// while it is true.
#[derive(Clone, Copy, Debug, PartialEq, Eq, Structural)]
pub struct BossSkills {
    /// Repeating timer between dashes; a dash may start on the tick on
    /// which it finishes.
    pub dash_cooldown: Timer,
    pub is_dashing: bool,
    /// Where the dash leads; meaningful only while dashing.
    pub dash_target: Vec2,
    /// Where the dash began; meaningful only while dashing.
    pub dash_start_position: Vec2,
    /// Travel rate of a dash, in thousandths of a unit per second.
    pub dash_speed: u32,
    /// Damage of a dash hit.
    pub dash_damage: u32,
    /// Whether this dash has already made contact with the player.
    pub has_hit_player: bool,
    /// Length of a dash, in thousandths of a unit.
    pub dash_distance: u32,
    /// One-shot timer that bounds the duration of a dash.
    pub dash_timer: Timer,
    /// Position at the last completion check.
    pub last_position: Vec2,
    /// Consecutive checks at which the adversary had hardly moved.
    pub stuck_frames: u32,
}

impl BossSkills {
    /// The skills of an adversary that has not dashed yet: ready, with a
    /// repeating cooldown of three seconds and a dash of 800 units at 800
    /// units per second that deals 25 damage and lasts at most two
    /// seconds.
    pub open spec fn fresh() -> BossSkills {
        BossSkills {
            dash_cooldown: Timer {
                duration: 3_000_000_000,
                elapsed: 0,
                finished: false,
                mode: TimerMode::Repeating,
            },
            is_dashing: false,
            dash_target: origin(),
            dash_start_position: origin(),
            dash_speed: 800_000,
            dash_damage: 25_000,
            has_hit_player: false,
            dash_distance: 800_000,
            dash_timer: Timer {
                duration: 2_000_000_000,
                elapsed: 0,
                finished: false,
                mode: TimerMode::Once,
            },
            last_position: origin(),
            stuck_frames: 0,
        }
    }

    /// The timer that bounds a dash runs once.
    pub open spec fn wf(self) -> bool {
        self.dash_timer.mode == TimerMode::Once
    }

    /// Whether a dash may start: the cooldown has just finished and no
    /// dash is under way.
    pub open spec fn may_dash(self) -> bool {
        self.dash_cooldown.finished && !self.is_dashing
    }

    /// The state after a trigger toward `target` from `start_position`:
    /// dashing, with the cooldown and the dash timer reset, the hit flag
    /// and the stuck count cleared. A trigger that is not allowed changes
    /// nothing.
    pub open spec fn started(self, target: Vec2, start_position: Vec2) -> BossSkills {
        if self.may_dash() {
            BossSkills {
                is_dashing: true,
                dash_target: target,
                dash_start_position: start_position,
                dash_cooldown: self.dash_cooldown.cleared(),
                has_hit_player: false,
                dash_timer: self.dash_timer.cleared(),
                last_position: start_position,
                stuck_frames: 0,
                ..self
            }
        } else {
            self
        }
    }

    /// The stuck count after a check at `position`: one more (up to the
    /// largest count) if the adversary moved less than [`STUCK_MOVEMENT`]
    /// since the last check, zero otherwise.
    pub open spec fn stuck_after(self, position: Vec2) -> u32 {
        if self.last_position.closer_than(position, STUCK_MOVEMENT as int) {
            if self.stuck_frames < u32::MAX { (self.stuck_frames + 1) as u32 } else { self.stuck_frames }
        } else {
            0
        }
    }

    /// The dashing state after the bookkeeping of a check at `position`,
    /// `delta_time` nanoseconds after the last: the dash timer has
    /// ticked, the stuck count is brought up to date and the position
    /// remembered.
    pub open spec fn observed(self, position: Vec2, delta_time: u64) -> BossSkills {
        BossSkills {
            dash_timer: self.dash_timer.ticked(delta_time),
            stuck_frames: self.stuck_after(position),
            last_position: position,
            ..self
        }
    }

    /// Whether a dash is complete at `position`, `delta_time` nanoseconds
    /// after the last check. Any one of four conditions ends it: the full
    /// dash distance lies between the position and the start; the target
    /// is nearer than the arrival radius; the adversary has been stuck for
    /// [`STUCK_FRAME_LIMIT`] checks in a row; the dash timer has run out.
    pub open spec fn complete_at(self, position: Vec2, delta_time: u64) -> bool {
        ||| !self.dash_start_position.closer_than(position, self.dash_distance as int)
        ||| position.closer_than(self.dash_target, BOSS_ARRIVAL_RADIUS as int)
        ||| self.stuck_after(position) >= STUCK_FRAME_LIMIT
        ||| self.dash_timer.ticked(delta_time).finished
    }

    /// The `Ready` state after a dash: not dashing, target and start
    /// cleared, hit flag cleared.
    pub open spec fn ended(self) -> BossSkills {
        BossSkills {
            is_dashing: false,
            dash_target: origin(),
            dash_start_position: origin(),
            has_hit_player: false,
            ..self
        }
    }

    /// The state after the completion check at `position`. A state that
    /// is not dashing is left alone.
    pub open spec fn updated(self, position: Vec2, delta_time: u64) -> BossSkills {
        if !self.is_dashing {
            self
        } else if self.complete_at(position, delta_time) {
            self.observed(position, delta_time).ended()
        } else {
            self.observed(position, delta_time)
        }
    }

    /// The state after one completion check at each of `positions` in
    /// turn, `delta_time` nanoseconds apart.
    pub open spec fn updated_along(self, positions: Seq<Vec2>, delta_time: u64) -> BossSkills
        decreases positions.len(),
    {
        if positions.len() == 0 {
            self
        } else {
            self.updated_along(positions.drop_last(), delta_time).updated(
                positions.last(),
                delta_time,
            )
        }
    }

    /// Whether contact with the player would count as a dash hit now.
    pub open spec fn may_hit_player(self) -> bool {
        self.is_dashing && !self.has_hit_player
    }

    /// Whether a dash may start now.
    pub fn can_dash(&self) -> (allowed: bool)
        ensures
            allowed == self.may_dash(),
    {
        self.dash_cooldown.finished() && !self.is_dashing
    }

    /// Starts a dash toward `target` from `start_position`, if one may
    /// start; otherwise does nothing.
    pub fn start_dash(&mut self, target: Vec2, start_position: Vec2)
        ensures
            *final(self) == old(self).started(target, start_position),
    {
        if self.can_dash() {
            self.is_dashing = true;
            self.dash_target = target;
            self.dash_start_position = start_position;
            self.dash_cooldown.reset();
            self.has_hit_player = false;
            self.dash_timer.reset();
            self.last_position = start_position;
            self.stuck_frames = 0;
        }
    }

    /// Checks at `current_position`, `delta_time` nanoseconds after the
    /// last check, whether the dash is complete, and ends it if so.
    /// Returns whether it ended on this call.
    pub fn update_dash(&mut self, current_position: Vec2, delta_time: u64) -> (completed: bool)
        ensures
            completed == (old(self).is_dashing && old(self).complete_at(
                current_position,
                delta_time,
            )),
            *final(self) == old(self).updated(current_position, delta_time),
    {
        if self.is_dashing {
            self.dash_timer.tick(delta_time);
            let travelled: bool = !self.dash_start_position.is_closer_than(
                &current_position,
                self.dash_distance as u64,
            );
            if self.last_position.is_closer_than(&current_position, STUCK_MOVEMENT) {
                self.stuck_frames = self.stuck_frames.saturating_add(1);
            } else {
                self.stuck_frames = 0;
            }
            self.last_position = current_position;
            let reached_target: bool = current_position.is_closer_than(
                &self.dash_target,
                BOSS_ARRIVAL_RADIUS,
            );
            let stuck_too_long: bool = self.stuck_frames >= STUCK_FRAME_LIMIT;
            let time_expired: bool = self.dash_timer.finished();
            if travelled || reached_target || stuck_too_long || time_expired {
                self.reset_dash();
                return true;
            }
        }
        false
    }

    /// Ends the dash, complete or interrupted: back to `Ready`, with the
    /// target, the start and the hit flag cleared.
    pub fn reset_dash(&mut self)
        ensures
            *final(self) == old(self).ended(),
            !final(self).is_dashing,
            !final(self).may_hit_player(),
    {
        self.is_dashing = false;
        self.dash_target = Vec2::zero();
        self.dash_start_position = Vec2::zero();
        self.has_hit_player = false;
    }

    /// Whether contact with the player would count as a dash hit now:
    /// only while dashing, and only until the first contact of the dash.
    pub fn can_hit_player(&self) -> (allowed: bool)
        ensures
            allowed == self.may_hit_player(),
    {
        self.is_dashing && !self.has_hit_player
    }

    /// Records that this dash has made contact with the player.
    pub fn mark_player_hit(&mut self)
        ensures
            *final(self) == (BossSkills { has_hit_player: true, ..*old(self) }),
            !final(self).may_hit_player(),
    {
        self.has_hit_player = true;
    }
}

impl Default for BossSkills {
    /// Ready, with a three-second cooldown and a dash of 800 units at 800
    /// units per second that deals 25 damage and lasts at most two seconds.
    fn default() -> (skills: BossSkills)
        ensures
            skills == BossSkills::fresh(),
            skills.wf(),
    {
        BossSkills {
            dash_cooldown: Timer::new(3_000_000_000, TimerMode::Repeating),
            is_dashing: false,
            dash_target: Vec2::zero(),
            dash_start_position: Vec2::zero(),
            dash_speed: 800_000,
            dash_damage: 25_000,
            has_hit_player: false,
            dash_distance: 800_000,
            dash_timer: Timer::new(2_000_000_000, TimerMode::Once),
            last_position: Vec2::zero(),
            stuck_frames: 0,
        }
    }
}

/// Helper of [`lemma_dash_ends_in_time`]: while the dash lasts, its timer
/// has counted every tick and has not run out.
proof fn lemma_dash_timer_counts(skills: BossSkills, positions: Seq<Vec2>, delta_time: u64)
    requires
        skills.wf(),
        skills.is_dashing,
        !skills.dash_timer.finished,
    ensures
        ({
            let after = skills.updated_along(positions, delta_time);
            &&& after.wf()
            &&& after.dash_timer.duration == skills.dash_timer.duration
            &&& after.is_dashing ==> {
                &&& !after.dash_timer.finished
                &&& after.dash_timer.elapsed == skills.dash_timer.elapsed + positions.len()
                    * delta_time
                &&& after.dash_timer.elapsed < after.dash_timer.duration || positions.len() == 0
            }
        }),
    decreases positions.len(),
{
    if positions.len() > 0 {
        let rest = positions.drop_last();
        lemma_dash_timer_counts(skills, rest, delta_time);
        assert(positions.len() * delta_time == rest.len() * delta_time + delta_time)
            by (nonlinear_arith)
            requires
                positions.len() == rest.len() + 1,
        ;
    }
}

/// Dash completion is eventual: a dash whose timer has not run out is over
/// after at most as many completion checks, a fixed positive time apart,
/// as it takes to cover what is left on the timer, wherever the adversary
/// is at each check.
pub proof fn lemma_dash_ends_in_time(skills: BossSkills, positions: Seq<Vec2>, delta_time: u64)
    requires
        skills.wf(),
        skills.is_dashing,
        delta_time > 0,
        positions.len() >= 1,
        skills.dash_timer.elapsed + positions.len() * delta_time >= skills.dash_timer.duration,
    ensures
        !skills.updated_along(positions, delta_time).is_dashing,
{
    if skills.dash_timer.finished {
        lemma_finished_dash_ends(skills, positions, delta_time);
    } else {
        lemma_dash_timer_counts(skills, positions, delta_time);
    }
}

/// Helper of [`lemma_dash_ends_in_time`]: a dash whose timer has already
/// run out ends at the first check, and a state that is not dashing stays
/// so.
proof fn lemma_finished_dash_ends(skills: BossSkills, positions: Seq<Vec2>, delta_time: u64)
    requires
        skills.wf(),
        !skills.is_dashing || skills.dash_timer.finished,
        positions.len() >= 1 || !skills.is_dashing,
    ensures
        !skills.updated_along(positions, delta_time).is_dashing,
    decreases positions.len(),
{
    if positions.len() > 0 {
        let rest = positions.drop_last();
        if rest.len() > 0 {
            lemma_finished_dash_ends(skills, rest, delta_time);
        } else {
            assert(skills.updated_along(rest, delta_time) == skills);
        }
    }
}

/// The adversary's spin while it dashes.
#[derive(Clone, Copy, Debug, PartialEq, Eq, Structural)]
pub struct RotationAnimation {
    /// Turn rate in millionths of a radian per second.
    pub speed: u32,
    pub enabled: bool,
}

impl RotationAnimation {
    /// Starts the spin.
    pub fn start(&mut self)
        ensures
            *final(self) == (RotationAnimation { enabled: true, ..*old(self) }),
    {
        self.enabled = true;
    }

    /// Stops the spin.
    pub fn stop(&mut self)
        ensures
            *final(self) == (RotationAnimation { enabled: false, ..*old(self) }),
    {
        self.enabled = false;
    }
}

impl Default for RotationAnimation {
    /// Three radians per second, not spinning.
    fn default() -> (rotation: RotationAnimation)
        ensures
            rotation == (RotationAnimation { speed: 3_000_000, enabled: false }),
    {
        RotationAnimation { speed: 3_000_000, enabled: false }
    }
}

/// The adversary's contact damage: 20 points per second.
pub const BOSS_CONTACT_DAMAGE: u32 = 20_000;

/// The time between two applications of contact damage: half a second.
pub const BOSS_CONTACT_INTERVAL: u64 = 500_000_000;

/// The radius of the adversary: 30 units.
pub const BOSS_RADIUS: u32 = 30_000;

/// The simulated state of the adversary.
#[derive(Clone, Copy, Debug, PartialEq, Eq, Structural)]
pub struct MineBossBundle {
    pub health: Health,
    pub speed: Speed,
    pub skills: BossSkills,
    pub collision_damage: CollisionDamage,
    pub collider: Collider,
    pub rotation_animation: RotationAnimation,
    pub position: Vec2,
}

impl MineBossBundle {
    /// The adversary as it enters play at `position`.
    pub open spec fn spawned(max_health: u32, speed: u32, position: Vec2) -> MineBossBundle {
        MineBossBundle {
            health: Health { current: max_health, max: max_health },
            speed: Speed { value: speed },
            skills: BossSkills::fresh(),
            collision_damage: CollisionDamage {
                damage_per_second: BOSS_CONTACT_DAMAGE,
                last_damage_time: 0,
                damage_interval: BOSS_CONTACT_INTERVAL,
            },
            collider: Collider { radius: BOSS_RADIUS },
            rotation_animation: RotationAnimation { speed: 3_000_000, enabled: false },
            position,
        }
    }

    /// An adversary at full health, ready but cooling down, at `position`.
    pub fn new(max_health: u32, speed: u32, position: Vec2) -> (boss: MineBossBundle)
        ensures
            boss == Self::spawned(max_health, speed, position),
            boss.health.wf(),
            boss.skills.wf(),
    {
        MineBossBundle {
            health: Health::new(max_health),
            speed: Speed::new(speed),
            skills: BossSkills::default(),
            collision_damage: CollisionDamage::new(BOSS_CONTACT_DAMAGE, BOSS_CONTACT_INTERVAL),
            collider: Collider::new(BOSS_RADIUS),
            rotation_animation: RotationAnimation::default(),
            position,
        }
    }
}

} // verus!
