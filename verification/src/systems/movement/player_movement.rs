//! The player's movement: walking, dashing, and the invulnerability that
//! a dash gives.

use vstd::prelude::*;
use crate::components::attributes::energy::Energy;
use crate::components::attributes::invulnerability::Invulnerability;
use crate::components::entities::player::{origin, PlayerDash, Shield};
use crate::fixed::scale_rate;
use crate::geometry::Vec2;
use crate::systems::boss_systems::stride;

verus! {

/// The player's walking speed: 300 units per second.
pub const BASE_SPEED: u32 = 300_000;

/// How far from the player's center its aim indicator sits: the player's
/// radius of 25 units and a gap of 7.
pub const INDICATOR_DISTANCE: u32 = 32_000;

/// What the player's dash did during a tick.
#[derive(Clone, Copy, Debug, PartialEq, Eq, Structural)]
pub struct DashReport {
    /// A dash was triggered and paid for.
    pub started: bool,
    /// A dash reached its end.
    pub completed: bool,
}

/// Whether the shield is up and so keeps the energy from recharging.
pub open spec fn shield_draining(shield: Option<Shield>) -> bool {
    match shield {
        Some(s) => s.raised(),
        None => false,
    }
}

/// The energy after this tick's recharge: none while the shield drains.
pub open spec fn rested(energy: Energy, shield: Option<Shield>, delta_time: u64) -> Energy {
    if shield_draining(shield) { energy } else { energy.recharged(delta_time) }
}

/// Whether a dash is triggered: the trigger is pressed with a direction,
/// no dash is under way and the recharged energy covers the cost.
pub open spec fn dash_triggered(
    dash: PlayerDash,
    energy: Energy,
    shield: Option<Shield>,
    dash_pressed: bool,
    direction: Vec2,
    delta_time: u64,
) -> bool {
    dash_pressed && direction != origin() && dash.may_dash(rested(energy, shield, delta_time))
}

/// The energy after this tick: recharged unless the shield drains, and
/// less the cost of a dash if one was triggered.
pub open spec fn energy_after_movement(
    dash: PlayerDash,
    energy: Energy,
    shield: Option<Shield>,
    dash_pressed: bool,
    direction: Vec2,
    delta_time: u64,
) -> Energy {
    let rested = rested(energy, shield, delta_time);
    if dash_triggered(dash, energy, shield, dash_pressed, direction, delta_time) {
        rested.spent(dash.energy_cost)
    } else {
        rested
    }
}

/// The dash after the trigger was looked at, before any movement.
pub open spec fn dash_after_trigger(
    position: Vec2,
    dash: PlayerDash,
    energy: Energy,
    shield: Option<Shield>,
    dash_pressed: bool,
    direction: Vec2,
    delta_time: u64,
) -> PlayerDash {
    if dash_triggered(dash, energy, shield, dash_pressed, direction, delta_time) {
        dash.started(direction, position)
    } else {
        dash
    }
}

/// Where the player stands after this tick: a dash leads toward its
/// target at the dash speed; otherwise the player walks along the input
/// direction at [`BASE_SPEED`], or stands still without one.
pub open spec fn player_moved(position: Vec2, dash: PlayerDash, direction: Vec2, delta_time: u64) -> Vec2 {
    if dash.is_dashing {
        position.moved_toward(dash.dash_target, stride(dash.dash_speed, delta_time))
    } else if direction != origin() {
        position.moved_along(direction, stride(BASE_SPEED, delta_time))
    } else {
        position
    }
}

/// Moves the player for one tick: recharges the energy unless the shield
/// drains it, triggers a dash if asked for and allowed, and either
/// advances the dash and checks it for completion or walks.
pub fn player_movement(
    position: &mut Vec2,
    dash: &mut PlayerDash,
    energy: &mut Energy,
    shield: Option<Shield>,
    dash_pressed: bool,
    direction: Vec2,
    delta_time: u64,
) -> (report: DashReport)
    ensures
        ({
            let triggered = dash_triggered(
                *old(dash),
                *old(energy),
                shield,
                dash_pressed,
                direction,
                delta_time,
            );
            let begun = dash_after_trigger(
                *old(position),
                *old(dash),
                *old(energy),
                shield,
                dash_pressed,
                direction,
                delta_time,
            );
            &&& *final(energy) == energy_after_movement(
                *old(dash),
                *old(energy),
                shield,
                dash_pressed,
                direction,
                delta_time,
            )
            &&& *final(position) == player_moved(*old(position), begun, direction, delta_time)
            &&& *final(dash) == begun.updated(*final(position))
            &&& report.started == triggered
            &&& report.completed == (begun.is_dashing && !final(dash).is_dashing)
        }),
        old(energy).wf() ==> final(energy).wf(),
{
    let shield_active: bool = match shield {
        Some(s) => s.is_active && s.length > 0,
        None => false,
    };
    if !shield_active {
        energy.recharge(delta_time);
    }
    let mut started: bool = false;
    if dash_pressed && dash.can_dash(energy) {
        if direction.x != 0 || direction.y != 0 {
            let paid: bool = energy.consume(dash.energy_cost);
            assert(paid);
            dash.start_dash(direction, *position);
            started = true;
        }
    }
    let mut completed: bool = false;
    if dash.is_dashing {
        let move_distance: u32 = scale_rate(dash.dash_speed, delta_time);
        *position = position.move_toward(&dash.dash_target, move_distance);
        completed = dash.update_dash(*position, delta_time);
    } else if direction.x != 0 || direction.y != 0 {
        let move_distance: u32 = scale_rate(BASE_SPEED, delta_time);
        *position = position.move_along(&direction, move_distance);
    }
    DashReport { started, completed }
}

/// Recomputes the player's invulnerability from the progress of the dash
/// at `position`.
pub fn manage_player_invulnerability(
    position: Vec2,
    dash: &PlayerDash,
    invulnerability: &mut Invulnerability,
)
    ensures
        final(invulnerability).active == dash.invulnerable_at(position),
{
    if dash.should_be_invulnerable(position) {
        invulnerability.activate();
    } else {
        invulnerability.deactivate();
    }
}

/// Turns the player's aim toward the cursor. Returns the offset of the aim
/// indicator from the player's center: [`INDICATOR_DISTANCE`] toward the
/// cursor. While a dash is under way the aim is held, and nothing is
/// returned.
pub fn player_face_mouse(position: Vec2, dash: &PlayerDash, cursor: Vec2) -> (aim: Option<Vec2>)
    ensures
        aim == if dash.is_dashing {
            None
        } else {
            Some(position.offset_to(cursor, INDICATOR_DISTANCE as int))
        },
{
    if dash.is_dashing {
        None
    } else {
        Some(position.offset_toward(&cursor, INDICATOR_DISTANCE))
    }
}

} // verus!
