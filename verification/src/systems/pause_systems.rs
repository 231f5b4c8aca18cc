//! Pausing and resuming the simulation.

use vstd::prelude::*;
use crate::resources::PauseState;
use crate::states::AppState;

verus! {

/// What is to happen to the simulation clock.
#[derive(Clone, Copy, Debug, PartialEq, Eq, Structural)]
pub enum ClockChange {
    /// The clock goes on as it is.
    Unchanged,
    /// The clock stops.
    Pause,
    /// The clock runs again.
    Unpause,
}

/// Handles the pause key. While an encounter is being played, a press
/// toggles the pause, and the simulation clock follows.
pub fn handle_pause_input(pause_state: &mut PauseState, current_state: AppState, pause_pressed: bool) -> (change: ClockChange)
    ensures
        *final(pause_state) == if current_state.in_play() && pause_pressed {
            old(pause_state).toggled()
        } else {
            *old(pause_state)
        },
        change == if !(current_state.in_play() && pause_pressed) {
            ClockChange::Unchanged
        } else if old(pause_state).is_paused {
            ClockChange::Unpause
        } else {
            ClockChange::Pause
        },
{
    if current_state.is_in_play() && pause_pressed {
        pause_state.toggle();
        if pause_state.is_paused {
            ClockChange::Pause
        } else {
            ClockChange::Unpause
        }
    } else {
        ClockChange::Unchanged
    }
}

/// Lets `real_delta` nanoseconds of real time pass for the pause timer,
/// which runs only while the simulation is paused.
pub fn update_pause_timer(pause_state: &mut PauseState, real_delta: u64)
    ensures
        *final(pause_state) == if old(pause_state).is_paused {
            (PauseState {
                pause_timer: old(pause_state).pause_timer.ticked(real_delta),
                ..*old(pause_state)
            })
        } else {
            *old(pause_state)
        },
{
    if pause_state.is_paused {
        pause_state.pause_timer.tick(real_delta);
    }
}

/// Leaves the pause when the encounter ends.
pub fn reset_pause_state(pause_state: &mut PauseState)
    ensures
        *final(pause_state) == old(pause_state).resumed(),
{
    pause_state.resume();
}

} // verus!
