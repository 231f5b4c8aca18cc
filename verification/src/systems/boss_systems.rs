//! The adversary's decisions, its movement, and the damage it deals on
//! contact.

use vstd::prelude::*;
use crate::components::attributes::collider::Collider;
use crate::components::attributes::collision_damage::CollisionDamage;
use crate::components::attributes::health::Health;
use crate::components::attributes::invulnerability::Invulnerability;
use crate::components::attributes::speed::Speed;
use crate::components::entities::boss::{BossSkills, RotationAnimation};
use crate::components::entities::player::Shield;
use crate::fixed::{accrued, saturated, scale_rate};
use crate::geometry::Vec2;
use crate::systems::boundary::contained_skills;

verus! {

/// The distance to the player above which the adversary dashes rather
/// than walks: 100 units.
pub const ENGAGEMENT_DISTANCE: u64 = 100_000;

/// The player's shield as it stands at a contact.
#[derive(Clone, Copy, Debug, PartialEq, Eq, Structural)]
pub struct Guard {
    pub shield: Shield,
    /// Bearing of the center of the shield arc, as seen from the player.
    pub center_angle: i32,
}

/// What a contact between the adversary and the player came to.
#[derive(Clone, Copy, Debug, PartialEq, Eq, Structural)]
pub enum Contact {
    /// Nothing was resolved: no overlap, or no hit was due.
    Missed,
    /// The player was invulnerable and took no damage.
    Avoided,
    /// The player took `damage`.
    Hit {
        damage: u32,
        /// Whether the shield blocked the attack and reduced the damage.
        blocked: bool,
        /// Whether the player has no health left.
        fatal: bool,
    },
}

/// Whether the guard blocks an attack from the bearing `attack_angle`. No
/// guard blocks nothing.
pub open spec fn guarded(guard: Option<Guard>, attack_angle: i32) -> bool {
    match guard {
        Some(g) => g.shield.blocks(attack_angle as int, g.center_angle as int),
        None => false,
    }
}

/// The damage that is left of `base` once the guard has been applied.
pub open spec fn damage_through(guard: Option<Guard>, attack_angle: i32, base: u32) -> u32 {
    match guard {
        Some(g) => if g.shield.blocks(attack_angle as int, g.center_angle as int) {
            g.shield.mitigated(base) as u32
        } else {
            base
        },
        None => base,
    }
}

/// The outcome of `base` damage reaching a player with the given health
/// through the guard.
pub open spec fn struck(health: Health, guard: Option<Guard>, attack_angle: i32, base: u32) -> Contact {
    Contact::Hit {
        damage: damage_through(guard, attack_angle, base),
        blocked: guarded(guard, attack_angle),
        fatal: !health.damaged(damage_through(guard, attack_angle, base)).alive(),
    }
}

/// The adversary's skills after its decision for this tick: the cooldown
/// has ticked; if a dash may start and the player is farther away than
/// [`ENGAGEMENT_DISTANCE`], a dash starts from the adversary's position
/// toward the point one dash distance away in the player's direction.
pub open spec fn decided(
    skills: BossSkills,
    boss_position: Vec2,
    player_position: Vec2,
    delta_time: u64,
) -> BossSkills {
    let cooled = BossSkills { dash_cooldown: skills.dash_cooldown.ticked(delta_time), ..skills };
    if cooled.may_dash() && !boss_position.within(player_position, ENGAGEMENT_DISTANCE as int) {
        cooled.started(
            boss_position.moved_toward(player_position, skills.dash_distance as int),
            boss_position,
        )
    } else {
        cooled
    }
}

/// Whether the adversary starts a dash on this tick.
pub open spec fn engages(
    skills: BossSkills,
    boss_position: Vec2,
    player_position: Vec2,
    delta_time: u64,
) -> bool {
    &&& skills.dash_cooldown.ticked(delta_time).finished
    &&& !skills.is_dashing
    &&& !boss_position.within(player_position, ENGAGEMENT_DISTANCE as int)
}

/// Advances the dash cooldown and decides between pursuit and a dash.
/// Returns whether a dash started.
pub fn mine_boss_ai(
    skills: &mut BossSkills,
    boss_position: Vec2,
    player_position: Vec2,
    delta_time: u64,
) -> (dashed: bool)
    ensures
        *final(skills) == decided(*old(skills), boss_position, player_position, delta_time),
        dashed == engages(*old(skills), boss_position, player_position, delta_time),
        dashed ==> final(skills).is_dashing && !final(skills).has_hit_player,
{
    skills.dash_cooldown.tick(delta_time);
    if skills.can_dash() {
        if !boss_position.is_within(&player_position, ENGAGEMENT_DISTANCE) {
            let dash_target: Vec2 = boss_position.move_toward(&player_position, skills.dash_distance);
            skills.start_dash(dash_target, boss_position);
            return true;
        }
    }
    false
}

/// The distance covered in `delta_time` nanoseconds at `speed`.
pub open spec fn stride(speed: u32, delta_time: u64) -> int {
    saturated(accrued(speed as int, delta_time as int))
}

/// Where the adversary stands after this tick's movement: a dash leads
/// toward its target at the dash speed, pursuit toward the player at the
/// base speed.
pub open spec fn boss_moved(
    position: Vec2,
    skills: BossSkills,
    speed: Speed,
    player_position: Vec2,
    delta_time: u64,
) -> Vec2 {
    if skills.is_dashing {
        position.moved_toward(skills.dash_target, stride(skills.dash_speed, delta_time))
    } else {
        position.moved_toward(player_position, stride(speed.value, delta_time))
    }
}

/// Moves the adversary for this tick and checks a dash for completion at
/// the new position. It spins exactly while a dash goes on. Returns
/// whether a dash ended.
pub fn boss_dash_movement(
    position: &mut Vec2,
    skills: &mut BossSkills,
    rotation: &mut RotationAnimation,
    speed: &Speed,
    player_position: Vec2,
    delta_time: u64,
) -> (completed: bool)
    ensures
        *final(position) == boss_moved(*old(position), *old(skills), *speed, player_position, delta_time),
        *final(skills) == old(skills).updated(*final(position), delta_time),
        completed == (old(skills).is_dashing && !final(skills).is_dashing),
        final(rotation).enabled == final(skills).is_dashing,
        final(rotation).speed == old(rotation).speed,
{
    if skills.is_dashing {
        if !rotation.enabled {
            rotation.start();
        }
        let move_distance: u32 = scale_rate(skills.dash_speed, delta_time);
        *position = position.move_toward(&skills.dash_target, move_distance);
        if skills.update_dash(*position, delta_time) {
            rotation.stop();
            return true;
        }
        false
    } else {
        let move_distance: u32 = scale_rate(speed.value, delta_time);
        *position = position.move_toward(&player_position, move_distance);
        rotation.stop();
        false
    }
}

/// The angle by which the adversary turns in `delta_time` nanoseconds, in
/// millionths of a radian: what accrues at the spin rate while the spin is
/// on, nothing while it is off.
pub fn boss_rotation_animation(rotation: &RotationAnimation, delta_time: u64) -> (turn: u32)
    ensures
        turn == if rotation.enabled { stride(rotation.speed, delta_time) } else { 0 },
{
    if rotation.enabled {
        scale_rate(rotation.speed, delta_time)
    } else {
        0
    }
}

/// Applies `base` damage to the player through the guard.
fn strike(health: &mut Health, guard: Option<Guard>, attack_angle: i32, base: u32) -> (outcome: Contact)
    ensures
        outcome == struck(*old(health), guard, attack_angle, base),
        *final(health) == old(health).damaged(damage_through(guard, attack_angle, base)),
{
    let mut damage: u32 = base;
    let mut blocked: bool = false;
    match guard {
        Some(g) => {
            if g.shield.can_block_attack(attack_angle, g.center_angle) {
                damage = g.shield.reduce_damage(base);
                blocked = true;
            }
        },
        None => {},
    }
    health.take_damage(damage);
    Contact::Hit { damage, blocked, fatal: !health.is_alive() }
}

/// Whether a dash makes contact with the player: a hit is still allowed
/// in this dash and the two circles overlap.
pub open spec fn dash_connects(
    skills: BossSkills,
    boss_position: Vec2,
    boss_collider: Collider,
    player_position: Vec2,
    player_collider: Collider,
) -> bool {
    skills.may_hit_player() && boss_collider.touches(boss_position, player_collider, player_position)
}

/// The skills after a dash contact was looked for: a contact uses up the
/// one hit of the dash, whether or not it did damage.
pub open spec fn after_dash_contact(skills: BossSkills, connects: bool) -> BossSkills {
    if connects { BossSkills { has_hit_player: true, ..skills } } else { skills }
}

/// Resolves the discrete hit of a dash. Where the dash makes contact, the
/// hit of this dash is used up; the player takes the dash damage, reduced
/// if the shield blocks the bearing `attack_angle` (from the player toward
/// the adversary), unless the player is invulnerable.
pub fn boss_player_collision(
    boss_position: Vec2,
    skills: &mut BossSkills,
    boss_collider: &Collider,
    player_position: Vec2,
    player_health: &mut Health,
    player_collider: &Collider,
    player_invulnerability: &Invulnerability,
    guard: Option<Guard>,
    attack_angle: i32,
) -> (outcome: Contact)
    ensures
        ({
            let connects = dash_connects(
                *old(skills),
                boss_position,
                *boss_collider,
                player_position,
                *player_collider,
            );
            let lands = connects && !player_invulnerability.active;
            &&& *final(skills) == after_dash_contact(*old(skills), connects)
            &&& *final(player_health) == if lands {
                old(player_health).damaged(
                    damage_through(guard, attack_angle, old(skills).dash_damage),
                )
            } else {
                *old(player_health)
            }
            &&& outcome == if lands {
                struck(*old(player_health), guard, attack_angle, old(skills).dash_damage)
            } else if connects {
                Contact::Avoided
            } else {
                Contact::Missed
            }
        }),
        !final(skills).may_hit_player() || *final(player_health) == *old(player_health),
{
    if skills.can_hit_player() {
        if boss_collider.overlaps(&boss_position, player_collider, &player_position) {
            let outcome: Contact = if !player_invulnerability.is_active() {
                strike(player_health, guard, attack_angle, skills.dash_damage)
            } else {
                Contact::Avoided
            };
            skills.mark_player_hit();
            return outcome;
        }
    }
    Contact::Missed
}

/// Whether periodic contact damage is due: the adversary is not dashing,
/// the two circles overlap, the player is vulnerable and a full interval
/// has passed since the last application.
pub open spec fn contact_damage_due(
    skills: BossSkills,
    collision_damage: CollisionDamage,
    boss_position: Vec2,
    boss_collider: Collider,
    player_position: Vec2,
    player_collider: Collider,
    invulnerability: Invulnerability,
    current_time: u64,
) -> bool {
    &&& !skills.is_dashing
    &&& boss_collider.touches(boss_position, player_collider, player_position)
    &&& !invulnerability.active
    &&& collision_damage.due(current_time)
}

/// Resolves the periodic damage of lasting contact at the simulation time
/// `current_time`. Only an adversary that is not dashing deals it, one
/// quantum per interval, reduced if the shield blocks the bearing
/// `attack_angle`.
pub fn boss_collision_damage(
    boss_position: Vec2,
    skills: &BossSkills,
    collision_damage: &mut CollisionDamage,
    boss_collider: &Collider,
    player_position: Vec2,
    player_health: &mut Health,
    player_collider: &Collider,
    player_invulnerability: &Invulnerability,
    guard: Option<Guard>,
    attack_angle: i32,
    current_time: u64,
) -> (outcome: Contact)
    ensures
        ({
            let touching = !skills.is_dashing && boss_collider.touches(
                boss_position,
                *player_collider,
                player_position,
            );
            let due = contact_damage_due(
                *skills,
                *old(collision_damage),
                boss_position,
                *boss_collider,
                player_position,
                *player_collider,
                *player_invulnerability,
                current_time,
            );
            let quantum = old(collision_damage).quantum() as u32;
            &&& *final(collision_damage) == if due {
                (CollisionDamage { last_damage_time: current_time, ..*old(collision_damage) })
            } else {
                *old(collision_damage)
            }
            &&& *final(player_health) == if due {
                old(player_health).damaged(damage_through(guard, attack_angle, quantum))
            } else {
                *old(player_health)
            }
            &&& outcome == if due {
                struck(*old(player_health), guard, attack_angle, quantum)
            } else if touching && player_invulnerability.active {
                Contact::Avoided
            } else {
                Contact::Missed
            }
        }),
{
    if !skills.is_dashing {
        if boss_collider.overlaps(&boss_position, player_collider, &player_position) {
            if player_invulnerability.is_active() {
                return Contact::Avoided;
            }
            if collision_damage.can_damage(current_time) {
                let base: u32 = collision_damage.apply_damage(current_time);
                return strike(player_health, guard, attack_angle, base);
            }
        }
    }
    Contact::Missed
}

/// A meeting of the adversary and the player at which contact is looked
/// for.
#[derive(Clone, Copy, Debug, PartialEq, Eq, Structural)]
pub struct Meeting {
    pub boss_position: Vec2,
    pub boss_collider: Collider,
    pub player_position: Vec2,
    pub player_collider: Collider,
    /// Whether the player is invulnerable at this meeting.
    pub invulnerable: bool,
}

/// One step in the life of a dash, between its trigger and the next.
#[derive(Clone, Copy, Debug, PartialEq, Eq, Structural)]
pub enum DashStep {
    /// A completion check at `position`, `delta_time` nanoseconds after
    /// the last.
    Check { position: Vec2, delta_time: u64 },
    /// A resolution of the discrete dash hit.
    Touch(Meeting),
    /// Containment in the arena with the adversary at `position`.
    Contain { position: Vec2 },
}

/// Whether the dash makes contact at a meeting.
pub open spec fn connects_at(skills: BossSkills, meeting: Meeting) -> bool {
    dash_connects(
        skills,
        meeting.boss_position,
        meeting.boss_collider,
        meeting.player_position,
        meeting.player_collider,
    )
}

/// Whether a step applies dash damage to the player.
pub open spec fn step_lands(skills: BossSkills, step: DashStep) -> bool {
    match step {
        DashStep::Check { .. } => false,
        DashStep::Touch(meeting) => connects_at(skills, meeting) && !meeting.invulnerable,
        DashStep::Contain { .. } => false,
    }
}

/// The skills after one step.
pub open spec fn after_step(skills: BossSkills, step: DashStep) -> BossSkills {
    match step {
        DashStep::Check { position, delta_time } => skills.updated(position, delta_time),
        DashStep::Touch(meeting) => after_dash_contact(skills, connects_at(skills, meeting)),
        DashStep::Contain { position } => contained_skills(position, skills),
    }
}

/// The skills after a sequence of steps.
pub open spec fn after_steps(skills: BossSkills, steps: Seq<DashStep>) -> BossSkills
    decreases steps.len(),
{
    if steps.len() == 0 {
        skills
    } else {
        after_step(after_steps(skills, steps.drop_last()), steps.last())
    }
}

/// How many steps of a sequence apply dash damage to the player.
pub open spec fn hits_landed(skills: BossSkills, steps: Seq<DashStep>) -> nat
    decreases steps.len(),
{
    if steps.len() == 0 {
        0
    } else {
        let earlier = hits_landed(skills, steps.drop_last());
        if step_lands(after_steps(skills, steps.drop_last()), steps.last()) {
            earlier + 1
        } else {
            earlier
        }
    }
}

/// At most one dash hit: between one trigger and the next, however many
/// completion checks, containments and contact resolutions follow one
/// another and however long the overlap lasts, dash damage is applied at
/// most once;
/// and once it has been applied, no further hit is allowed.
pub proof fn lemma_at_most_one_dash_hit(skills: BossSkills, steps: Seq<DashStep>)
    ensures
        hits_landed(skills, steps) <= 1,
        hits_landed(skills, steps) == 1 ==> !after_steps(skills, steps).may_hit_player(),
        !skills.may_hit_player() ==> hits_landed(skills, steps) == 0 && !after_steps(
            skills,
            steps,
        ).may_hit_player(),
    decreases steps.len(),
{
    if steps.len() > 0 {
        lemma_at_most_one_dash_hit(skills, steps.drop_last());
    }
}

} // verus!
