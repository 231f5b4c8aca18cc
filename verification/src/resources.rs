//! State that belongs to the encounter as a whole.

use vstd::prelude::*;
use crate::timer::{Timer, TimerMode};

verus! {

/// Whether the simulation is paused, and the timer of the pause. Pausing
/// stops the simulation clock; the pause timer runs on real time.
#[derive(Clone, Copy, Debug, PartialEq, Eq, Structural)]
pub struct PauseState {
    pub is_paused: bool,
    pub pause_timer: Timer,
}

impl PauseState {
    /// The state of a simulation that has not been paused yet.
    pub open spec fn fresh() -> PauseState {
        PauseState {
            is_paused: false,
            pause_timer: Timer { duration: 0, elapsed: 0, finished: false, mode: TimerMode::Once },
        }
    }

    /// The state once paused: the pause timer starts anew.
    pub open spec fn paused(self) -> PauseState {
        PauseState { is_paused: true, pause_timer: self.pause_timer.cleared() }
    }

    /// The state once resumed.
    pub open spec fn resumed(self) -> PauseState {
        PauseState { is_paused: false, ..self }
    }

    /// The state after the pause was toggled.
    pub open spec fn toggled(self) -> PauseState {
        if self.is_paused { self.resumed() } else { self.paused() }
    }

    /// Not paused.
    pub fn new() -> (state: PauseState)
        ensures
            state == PauseState::fresh(),
    {
        PauseState { is_paused: false, pause_timer: Timer::new(0, TimerMode::Once) }
    }

    /// Pauses the simulation and restarts the pause timer.
    pub fn pause(&mut self)
        ensures
            *final(self) == old(self).paused(),
    {
        self.is_paused = true;
        self.pause_timer.reset();
    }

    /// Resumes the simulation.
    pub fn resume(&mut self)
        ensures
            *final(self) == old(self).resumed(),
    {
        self.is_paused = false;
    }

    /// Pauses a running simulation and resumes a paused one.
    pub fn toggle(&mut self)
        ensures
            *final(self) == old(self).toggled(),
            final(self).is_paused == !old(self).is_paused,
    {
        if self.is_paused {
            self.resume();
        } else {
            self.pause();
        }
    }
}

impl Default for PauseState {
    /// Not paused.
    fn default() -> (state: PauseState)
        ensures
            state == PauseState::fresh(),
    {
        PauseState::new()
    }
}

} // verus!
