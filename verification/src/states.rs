//! The screens of the application.

use vstd::prelude::*;

verus! {

/// The state that the application is in.
#[derive(Clone, Copy, Debug, PartialEq, Eq, Hash, Structural)]
pub enum AppState {
    MainMenu,
    Game,
    Debug,
    GameOver,
}

impl AppState {
    /// Whether an encounter is being played in this state.
    pub open spec fn in_play(self) -> bool {
        self == AppState::Game || self == AppState::Debug
    }

    /// Whether an encounter is being played in this state.
    pub fn is_in_play(&self) -> (playing: bool)
        ensures
            playing == self.in_play(),
    {
        match self {
            AppState::Game => true,
            AppState::Debug => true,
            _ => false,
        }
    }
}

impl Default for AppState {
    /// The application starts in the main menu.
    fn default() -> (state: AppState)
        ensures
            state == AppState::MainMenu,
    {
        AppState::MainMenu
    }
}

} // verus!
