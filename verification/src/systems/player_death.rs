//! The end of an encounter.

use vstd::prelude::*;
use crate::components::attributes::health::Health;
use crate::states::AppState;

verus! {

/// Checks whether the player has died. While an encounter is being played
/// and the player has no health left, the application is to go to the
/// game-over state; otherwise it stays where it is.
pub fn check_player_death(health: &Health, current_state: AppState) -> (next: Option<AppState>)
    ensures
        next == if current_state.in_play() && !health.alive() {
            Some(AppState::GameOver)
        } else {
            None
        },
{
    if !current_state.is_in_play() {
        return None;
    }
    if !health.is_alive() {
        Some(AppState::GameOver)
    } else {
        None
    }
}

} // verus!
