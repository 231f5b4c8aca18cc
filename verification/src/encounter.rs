//! One encounter between the player and the adversary, advanced tick by
//! tick in a fixed order.
//!
//! A tick has two phases. [`Encounter::advance`] moves both actors,
//! recomputes the player's invulnerability from the progress of its dash
//! and holds both actors to the arena. [`Encounter::resolve`] then looks
//! for contact and applies damage. The bearing of the attack, which the
//! second phase needs, is taken from the positions that the first phase
//! left behind.

use vstd::prelude::*;
use crate::components::attributes::energy::Energy;
use crate::components::attributes::health::Health;
use crate::components::attributes::invulnerability::Invulnerability;
use crate::components::entities::boss::{BossSkills, MineBossBundle, RotationAnimation};
use crate::components::entities::player::{PlayerBundle, PlayerDash, Shield};
use crate::constants::boundaries::{clamped, in_arena};
use crate::geometry::Vec2;
use crate::systems::boss_systems::{
    after_dash_contact, boss_collision_damage, boss_dash_movement, boss_moved,
    boss_player_collision, contact_damage_due, damage_through, dash_connects, decided, engages,
    mine_boss_ai, struck, Contact, Guard,
};
use crate::systems::boundary::{
    contained_dash, contained_skills, enforce_boss_boundaries, enforce_boundaries,
};
use crate::systems::movement::player_movement::{
    dash_after_trigger, dash_triggered, energy_after_movement, manage_player_invulnerability,
    player_moved, player_movement, DashReport,
};
use crate::systems::movement::shield_system::{
    animate_shield, animated, drained, handle_shield_input, raises, shield_after_input,
};

verus! {

/// What the player asks for during one tick.
#[derive(Clone, Copy, Debug, PartialEq, Eq, Structural)]
pub struct PlayerIntent {
    /// Direction to walk or dash in; zero for none.
    pub movement_direction: Vec2,
    /// Bearing of the player's aim, on which the shield is centered, in
    /// millionths of a radian.
    pub aim_bearing: i32,
    /// Whether the dash button went down on this tick.
    pub dash_trigger: bool,
    /// Whether the shield button is held down.
    pub shield_held: bool,
}

/// What the first phase of a tick did.
#[derive(Clone, Copy, Debug, PartialEq, Eq, Structural)]
pub struct Advance {
    /// What the player's dash did.
    pub player_dash: DashReport,
    /// Whether the player had to be moved back into the arena.
    pub player_clamped: bool,
    /// Whether the adversary had to be moved back into the arena.
    pub boss_clamped: bool,
    /// Whether the adversary started a dash.
    pub boss_dash_started: bool,
    /// Whether a dash of the adversary ended.
    pub boss_dash_completed: bool,
}

/// What the second phase of a tick did.
#[derive(Clone, Copy, Debug, PartialEq, Eq, Structural)]
pub struct Resolution {
    /// The outcome of the discrete dash hit.
    pub dash_hit: Contact,
    /// The outcome of the periodic contact damage.
    pub contact_hit: Contact,
    /// Whether the player has no health left after this tick.
    pub player_died: bool,
}

/// The player, its shield and the adversary, with the simulation clock.
#[derive(Clone, Copy, Debug, PartialEq, Eq, Structural)]
pub struct Encounter {
    pub player: PlayerBundle,
    pub shield: Shield,
    pub boss: MineBossBundle,
    /// Simulation time in nanoseconds; it stands still while paused.
    pub clock: u64,
    /// Bearing of the player's aim as of the last tick.
    pub aim_bearing: i32,
    /// Whether the shield button was held down on the last tick.
    pub shield_held: bool,
}

impl Encounter {
    /// Both actors have well-formed health, the player well-formed energy
    /// and a well-formed shield, and the timer that bounds the adversary's
    /// dash runs once.
    pub open spec fn wf(self) -> bool {
        &&& self.player.health.wf()
        &&& self.player.energy.wf()
        &&& self.shield.wf()
        &&& self.boss.health.wf()
        &&& self.boss.skills.wf()
    }

    /// The dash of the player after the trigger of this tick.
    pub open spec fn begun_dash(self, intent: PlayerIntent, delta_time: u64) -> PlayerDash {
        dash_after_trigger(
            self.player.position,
            self.player.dash,
            self.player.energy,
            Some(self.shield),
            intent.dash_trigger,
            intent.movement_direction,
            delta_time,
        )
    }

    /// Where the player stands after its movement, before containment.
    pub open spec fn player_reach(self, intent: PlayerIntent, delta_time: u64) -> Vec2 {
        player_moved(
            self.player.position,
            self.begun_dash(intent, delta_time),
            intent.movement_direction,
            delta_time,
        )
    }

    /// The energy of the player after movement and dash trigger.
    pub open spec fn moved_energy(self, intent: PlayerIntent, delta_time: u64) -> Energy {
        energy_after_movement(
            self.player.dash,
            self.player.energy,
            Some(self.shield),
            intent.dash_trigger,
            intent.movement_direction,
            delta_time,
        )
    }

    /// The skills of the adversary after its decision, which it takes on
    /// the player's position after movement.
    pub open spec fn decided_skills(self, intent: PlayerIntent, delta_time: u64) -> BossSkills {
        decided(
            self.boss.skills,
            self.boss.position,
            self.player_reach(intent, delta_time),
            delta_time,
        )
    }

    /// Where the adversary stands after its movement, before containment.
    pub open spec fn boss_reach(self, intent: PlayerIntent, delta_time: u64) -> Vec2 {
        boss_moved(
            self.boss.position,
            self.decided_skills(intent, delta_time),
            self.boss.speed,
            self.player_reach(intent, delta_time),
            delta_time,
        )
    }

    /// Whether the shield button went down on this tick.
    pub open spec fn shield_pressed(self, intent: PlayerIntent) -> bool {
        intent.shield_held && !self.shield_held
    }

    /// Whether the shield button came up on this tick.
    pub open spec fn shield_released(self, intent: PlayerIntent) -> bool {
        !intent.shield_held && self.shield_held
    }

    /// The shield after the input of this tick.
    pub open spec fn commanded_shield(self, intent: PlayerIntent, delta_time: u64) -> Shield {
        shield_after_input(
            self.shield,
            self.moved_energy(intent, delta_time),
            self.shield_pressed(intent),
            self.shield_released(intent),
        )
    }

    /// The energy after the activation cost of the shield, if it was
    /// raised on this tick.
    pub open spec fn commanded_energy(self, intent: PlayerIntent, delta_time: u64) -> Energy {
        let energy = self.moved_energy(intent, delta_time);
        if raises(self.shield, energy, self.shield_pressed(intent)) {
            energy.spent(self.shield.activation_energy_cost)
        } else {
            energy
        }
    }

    /// The encounter after the first phase of a tick, in the order that
    /// the simulation requires: both actors move (the player first, the
    /// adversary deciding and moving on the player's new position); the
    /// player's invulnerability is recomputed from the progress of its
    /// dash; the shield takes its input and draws its energy; both actors
    /// are held to the arena, which interrupts the dash of an actor that
    /// ran into the boundary; the clock advances.
    pub open spec fn advanced(self, intent: PlayerIntent, delta_time: u64) -> Encounter {
        let player_reach = self.player_reach(intent, delta_time);
        let dash = self.begun_dash(intent, delta_time).updated(player_reach);
        let boss_reach = self.boss_reach(intent, delta_time);
        let skills = contained_skills(
            boss_reach,
            self.decided_skills(intent, delta_time).updated(boss_reach, delta_time),
        );
        let shield = self.commanded_shield(intent, delta_time);
        let energy = self.commanded_energy(intent, delta_time);
        Encounter {
            player: PlayerBundle {
                position: clamped(player_reach),
                dash: contained_dash(player_reach, Some(dash))->0,
                energy: drained(shield, Some(energy), delta_time)->0,
                invulnerability: Invulnerability { active: dash.invulnerable_at(player_reach) },
                ..self.player
            },
            shield: animated(shield, Some(energy), delta_time),
            boss: MineBossBundle {
                position: clamped(boss_reach),
                skills,
                rotation_animation: RotationAnimation {
                    enabled: skills.is_dashing,
                    ..self.boss.rotation_animation
                },
                ..self.boss
            },
            clock: if self.clock + delta_time > u64::MAX {
                u64::MAX
            } else {
                (self.clock + delta_time) as u64
            },
            aim_bearing: intent.aim_bearing,
            shield_held: intent.shield_held,
        }
    }

    /// The guard that the shield puts up, centered on the player's aim.
    pub open spec fn guard(self) -> Option<Guard> {
        Some(Guard { shield: self.shield, center_angle: self.aim_bearing })
    }

    /// Whether the dash of the adversary makes contact with the player.
    pub open spec fn dash_contact(self) -> bool {
        dash_connects(
            self.boss.skills,
            self.boss.position,
            self.boss.collider,
            self.player.position,
            self.player.collider,
        )
    }

    /// Whether the discrete dash hit does damage on this tick.
    pub open spec fn dash_lands(self) -> bool {
        self.dash_contact() && !self.player.invulnerability.active
    }

    /// Whether periodic contact damage is applied on this tick.
    pub open spec fn contact_lands(self) -> bool {
        contact_damage_due(
            self.boss.skills,
            self.boss.collision_damage,
            self.boss.position,
            self.boss.collider,
            self.player.position,
            self.player.collider,
            self.player.invulnerability,
            self.clock,
        )
    }

    /// The health of the player after the second phase of a tick, with
    /// the adversary at the bearing `attack_angle` from the player.
    pub open spec fn resolved_health(self, attack_angle: i32) -> Health {
        if self.dash_lands() {
            self.player.health.damaged(
                damage_through(self.guard(), attack_angle, self.boss.skills.dash_damage),
            )
        } else if self.contact_lands() {
            self.player.health.damaged(
                damage_through(
                    self.guard(),
                    attack_angle,
                    self.boss.collision_damage.quantum() as u32,
                ),
            )
        } else {
            self.player.health
        }
    }

    /// The encounter after the second phase of a tick: a dash that makes
    /// contact has used up its hit, and the player has taken the damage of
    /// the dash hit or of lasting contact, whichever applies.
    pub open spec fn resolved(self, attack_angle: i32) -> Encounter {
        Encounter {
            player: PlayerBundle { health: self.resolved_health(attack_angle), ..self.player },
            boss: MineBossBundle {
                skills: after_dash_contact(self.boss.skills, self.dash_contact()),
                collision_damage: if self.contact_lands() {
                    crate::components::attributes::collision_damage::CollisionDamage {
                        last_damage_time: self.clock,
                        ..self.boss.collision_damage
                    }
                } else {
                    self.boss.collision_damage
                },
                ..self.boss
            },
            ..self
        }
    }

    /// An encounter that starts at time zero with the shield down and its
    /// button up.
    pub fn new(player: PlayerBundle, boss: MineBossBundle) -> (encounter: Encounter)
        ensures
            encounter == (Encounter {
                player,
                shield: Shield::fresh(),
                boss,
                clock: 0,
                aim_bearing: 0,
                shield_held: false,
            }),
            encounter.wf() <==> player.health.wf() && player.energy.wf() && boss.health.wf()
                && boss.skills.wf(),
    {
        Encounter {
            player,
            shield: Shield::new(),
            boss,
            clock: 0,
            aim_bearing: 0,
            shield_held: false,
        }
    }

    /// The first phase of a tick: movement, invulnerability, shield and
    /// containment, `delta_time` nanoseconds after the last tick.
    pub fn advance(&mut self, intent: PlayerIntent, delta_time: u64) -> (report: Advance)
        ensures
            *final(self) == old(self).advanced(intent, delta_time),
            in_arena(final(self).player.position),
            in_arena(final(self).boss.position),
            final(self).player.health == old(self).player.health,
            final(self).boss.health == old(self).boss.health,
            old(self).wf() ==> final(self).wf(),
            report.player_dash.started == dash_triggered(
                old(self).player.dash,
                old(self).player.energy,
                Some(old(self).shield),
                intent.dash_trigger,
                intent.movement_direction,
                delta_time,
            ),
            report.player_dash.completed == (old(self).begun_dash(intent, delta_time).is_dashing
                && old(self).begun_dash(intent, delta_time).complete_at(
                old(self).player_reach(intent, delta_time),
            )),
            report.boss_dash_completed == (old(self).decided_skills(intent, delta_time).is_dashing
                && old(self).decided_skills(intent, delta_time).complete_at(
                old(self).boss_reach(intent, delta_time),
                delta_time,
            )),
            report.player_clamped == !in_arena(old(self).player_reach(intent, delta_time)),
            report.player_clamped ==> !final(self).player.dash.is_dashing,
            report.boss_clamped == !in_arena(old(self).boss_reach(intent, delta_time)),
            report.boss_clamped ==> !final(self).boss.skills.is_dashing,
            final(self).boss.rotation_animation.enabled == final(self).boss.skills.is_dashing,
            report.boss_dash_started == engages(
                old(self).boss.skills,
                old(self).boss.position,
                old(self).player_reach(intent, delta_time),
                delta_time,
            ),
    {
        let mut player_position: Vec2 = self.player.position;
        let mut dash: PlayerDash = self.player.dash;
        let mut energy: Energy = self.player.energy;
        let player_dash: DashReport = player_movement(
            &mut player_position,
            &mut dash,
            &mut energy,
            Some(self.shield),
            intent.dash_trigger,
            intent.movement_direction,
            delta_time,
        );

        let mut boss_position: Vec2 = self.boss.position;
        let mut skills: BossSkills = self.boss.skills;
        let mut rotation: RotationAnimation = self.boss.rotation_animation;
        let boss_dash_started: bool = mine_boss_ai(
            &mut skills,
            boss_position,
            player_position,
            delta_time,
        );
        let boss_dash_completed: bool = boss_dash_movement(
            &mut boss_position,
            &mut skills,
            &mut rotation,
            &self.boss.speed,
            player_position,
            delta_time,
        );

        let mut invulnerability: Invulnerability = self.player.invulnerability;
        manage_player_invulnerability(player_position, &dash, &mut invulnerability);

        let mut shield: Shield = self.shield;
        let shield_pressed: bool = intent.shield_held && !self.shield_held;
        let shield_released: bool = !intent.shield_held && self.shield_held;
        handle_shield_input(&mut shield, &mut energy, shield_pressed, shield_released);
        let mut drawn: Option<Energy> = Some(energy);
        animate_shield(&mut shield, &mut drawn, delta_time);
        let energy_left: Energy = match drawn {
            Some(e) => e,
            None => energy,
        };

        let player_clamped: bool = !crate::constants::boundaries::GameBoundaries::is_within_bounds(
            player_position,
        );
        let contained_player: (Vec2, Option<PlayerDash>) = enforce_boundaries(
            player_position,
            Some(dash),
        );
        let boss_clamped: bool = !crate::constants::boundaries::GameBoundaries::is_within_bounds(
            boss_position,
        );
        let contained_boss: Vec2 = enforce_boss_boundaries(boss_position, &mut skills);
        if !skills.is_dashing {
            rotation.stop();
        }
        let dash_left: PlayerDash = match contained_player.1 {
            Some(d) => d,
            None => dash,
        };

        self.player.position = contained_player.0;
        self.player.dash = dash_left;
        self.player.energy = energy_left;
        self.player.invulnerability = invulnerability;
        self.shield = shield;
        self.boss.position = contained_boss;
        self.boss.skills = skills;
        self.boss.rotation_animation = rotation;
        self.clock = self.clock.saturating_add(delta_time);
        self.aim_bearing = intent.aim_bearing;
        self.shield_held = intent.shield_held;
        Advance { player_dash, player_clamped, boss_clamped, boss_dash_started, boss_dash_completed }
    }

    /// The second phase of a tick: contact, damage and death.
    /// `attack_angle` is the bearing from the player's center to the
    /// adversary as the first phase left them, in millionths of a radian.
    pub fn resolve(&mut self, attack_angle: i32) -> (resolution: Resolution)
        ensures
            *final(self) == old(self).resolved(attack_angle),
            resolution.dash_hit == if old(self).dash_lands() {
                struck(
                    old(self).player.health,
                    old(self).guard(),
                    attack_angle,
                    old(self).boss.skills.dash_damage,
                )
            } else if old(self).dash_contact() {
                Contact::Avoided
            } else {
                Contact::Missed
            },
            resolution.contact_hit == if old(self).contact_lands() {
                struck(
                    old(self).player.health,
                    old(self).guard(),
                    attack_angle,
                    old(self).boss.collision_damage.quantum() as u32,
                )
            } else if !old(self).boss.skills.is_dashing && old(self).boss.collider.touches(
                old(self).boss.position,
                old(self).player.collider,
                old(self).player.position,
            ) && old(self).player.invulnerability.active {
                Contact::Avoided
            } else {
                Contact::Missed
            },
            !(resolution.dash_hit is Hit && resolution.contact_hit is Hit),
            resolution.player_died == !final(self).player.health.alive(),
            final(self).player.health.current <= old(self).player.health.current,
            old(self).wf() ==> final(self).wf(),
    {
        let guard: Option<Guard> = Some(Guard { shield: self.shield, center_angle: self.aim_bearing });
        let mut skills: BossSkills = self.boss.skills;
        let mut health: Health = self.player.health;
        let mut collision_damage = self.boss.collision_damage;
        let dash_hit: Contact = boss_player_collision(
            self.boss.position,
            &mut skills,
            &self.boss.collider,
            self.player.position,
            &mut health,
            &self.player.collider,
            &self.player.invulnerability,
            guard,
            attack_angle,
        );
        let contact_hit: Contact = boss_collision_damage(
            self.boss.position,
            &skills,
            &mut collision_damage,
            &self.boss.collider,
            self.player.position,
            &mut health,
            &self.player.collider,
            &self.player.invulnerability,
            guard,
            attack_angle,
            self.clock,
        );
        self.boss.skills = skills;
        self.boss.collision_damage = collision_damage;
        self.player.health = health;
        Resolution { dash_hit, contact_hit, player_died: !health.is_alive() }
    }
}

} // verus!
