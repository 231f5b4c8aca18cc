//! The shield: raising and lowering it on input, its growth and the energy
//! it draws.

use vstd::prelude::*;
use crate::components::attributes::energy::Energy;
use crate::components::entities::player::Shield;
use crate::fixed::{max_int, min_int, scale_rate};
use crate::systems::boss_systems::stride;

verus! {

/// The arc that a raised shield grows to: half of the full circle.
pub const RAISED_LENGTH: u32 = 500;

/// What happens to the aim indicator, which is shown exactly while no
/// shield is in its place.
#[derive(Clone, Copy, Debug, PartialEq, Eq, Structural)]
pub enum IndicatorChange {
    /// The indicator stays as it is.
    Unchanged,
    /// The indicator gives way to the shield.
    Hide,
    /// The indicator comes back.
    Show,
}

/// Whether the shield is raised on this input: the button went down while
/// the shield may be activated.
pub open spec fn raises(shield: Shield, energy: Energy, just_pressed: bool) -> bool {
    just_pressed && shield.may_activate(energy)
}

/// The shield after the input was handled.
pub open spec fn shield_after_input(
    shield: Shield,
    energy: Energy,
    just_pressed: bool,
    just_released: bool,
) -> Shield {
    if just_pressed {
        if shield.may_activate(energy) { shield.activated(RAISED_LENGTH) } else { shield }
    } else if just_released {
        shield.lowering()
    } else {
        shield
    }
}

/// The change to the indicator after the input was handled.
pub open spec fn indicator_after_input(
    shield: Shield,
    energy: Energy,
    just_pressed: bool,
    just_released: bool,
) -> IndicatorChange {
    if just_pressed {
        if shield.may_activate(energy) { IndicatorChange::Hide } else { IndicatorChange::Unchanged }
    } else if just_released {
        IndicatorChange::Show
    } else {
        IndicatorChange::Unchanged
    }
}

/// Handles the shield button. When it goes down and the shield may be
/// activated, the activation cost is paid and the shield raised toward
/// [`RAISED_LENGTH`]; otherwise a press changes nothing. When the button
/// comes up, the shield is told to come down.
pub fn handle_shield_input(
    shield: &mut Shield,
    energy: &mut Energy,
    just_pressed: bool,
    just_released: bool,
) -> (change: IndicatorChange)
    ensures
        *final(shield) == shield_after_input(*old(shield), *old(energy), just_pressed, just_released),
        *final(energy) == if raises(*old(shield), *old(energy), just_pressed) {
            old(energy).spent(old(shield).activation_energy_cost)
        } else {
            *old(energy)
        },
        change == indicator_after_input(*old(shield), *old(energy), just_pressed, just_released),
        old(shield).wf() ==> final(shield).wf(),
        old(energy).wf() ==> final(energy).wf(),
{
    if just_pressed {
        if shield.can_activate(energy) {
            let paid: bool = energy.consume(shield.activation_energy_cost);
            assert(paid);
            shield.activate(RAISED_LENGTH);
            return IndicatorChange::Hide;
        }
        IndicatorChange::Unchanged
    } else if just_released {
        shield.deactivate();
        IndicatorChange::Show
    } else {
        IndicatorChange::Unchanged
    }
}

/// The energy that a raised shield draws in `delta_time` nanoseconds.
pub open spec fn drain(shield: Shield, delta_time: u64) -> u32 {
    stride(shield.energy_drain_rate, delta_time) as u32
}

/// Whether a raised shield runs out of energy on this tick.
pub open spec fn starved(shield: Shield, energy: Option<Energy>, delta_time: u64) -> bool {
    match energy {
        Some(e) => shield.raised() && !e.affords(drain(shield, delta_time)),
        None => false,
    }
}

/// The energy after the shield has drawn on it: a raised shield draws its
/// drain if the energy covers it, and nothing if not.
pub open spec fn drained(shield: Shield, energy: Option<Energy>, delta_time: u64) -> Option<Energy> {
    match energy {
        Some(e) => if shield.raised() { Some(e.spent(drain(shield, delta_time))) } else { Some(e) },
        None => None,
    }
}

/// The shield after the length has moved one step toward the target: an
/// arc that has shrunk to nothing goes down.
pub open spec fn resized(shield: Shield, delta_time: u64) -> Shield {
    let step = stride(shield.animation_speed, delta_time);
    if !(shield.is_active || shield.length > 0) {
        shield
    } else if shield.length < shield.target_length {
        Shield { length: min_int(shield.length + step, shield.target_length as int) as u32, ..shield }
    } else if shield.length > shield.target_length {
        let length = max_int(shield.length - step, shield.target_length as int) as u32;
        Shield { length, is_active: shield.is_active && length > 0, ..shield }
    } else {
        shield
    }
}

/// The change to the indicator that goes with [`resized`]: a growing arc
/// hides it, an arc that has shrunk to nothing shows it.
pub open spec fn indicator_after_resize(shield: Shield, delta_time: u64) -> IndicatorChange {
    if !(shield.is_active || shield.length > 0) {
        IndicatorChange::Unchanged
    } else if shield.length < shield.target_length {
        IndicatorChange::Hide
    } else if shield.length > shield.target_length && resized(shield, delta_time).length == 0 {
        IndicatorChange::Show
    } else {
        IndicatorChange::Unchanged
    }
}

/// The shield after one tick: told to come down if it ran out of energy,
/// and resized toward its target.
pub open spec fn animated(shield: Shield, energy: Option<Energy>, delta_time: u64) -> Shield {
    if starved(shield, energy, delta_time) {
        resized(shield.lowering(), delta_time)
    } else {
        resized(shield, delta_time)
    }
}

/// Advances the shield by one tick. A raised shield draws its drain from
/// the energy, if there is any to draw on; one that cannot be paid for is
/// told to come down. The arc then grows or shrinks toward its target.
pub fn animate_shield(shield: &mut Shield, energy: &mut Option<Energy>, delta_time: u64) -> (change: IndicatorChange)
    ensures
        *final(energy) == drained(*old(shield), *old(energy), delta_time),
        *final(shield) == animated(*old(shield), *old(energy), delta_time),
        change == indicator_after_resize(
            if starved(*old(shield), *old(energy), delta_time) {
                old(shield).lowering()
            } else {
                *old(shield)
            },
            delta_time,
        ),
        old(shield).wf() ==> final(shield).wf(),
        final(shield).length <= old(shield).length || final(shield).length <= old(
            shield,
        ).target_length,
{
    match energy {
        Some(e) => {
            if shield.is_active && shield.length > 0 {
                let energy_to_consume: u32 = scale_rate(shield.energy_drain_rate, delta_time);
                if !e.consume(energy_to_consume) {
                    shield.deactivate();
                }
            }
        },
        None => {},
    }
    let mut change: IndicatorChange = IndicatorChange::Unchanged;
    if shield.is_active || shield.length > 0 {
        let step: u32 = scale_rate(shield.animation_speed, delta_time);
        if shield.length < shield.target_length {
            let grown: u32 = shield.length.saturating_add(step);
            shield.length = if grown > shield.target_length { shield.target_length } else { grown };
            change = IndicatorChange::Hide;
        } else if shield.length > shield.target_length {
            let shrunk: u32 = shield.length.saturating_sub(step);
            shield.length = if shrunk < shield.target_length { shield.target_length } else { shrunk };
            if shield.length == 0 {
                shield.is_active = false;
                change = IndicatorChange::Show;
            }
        }
    }
    change
}

} // verus!
