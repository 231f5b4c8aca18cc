//! Countdown timers measured in nanoseconds.
//!
//! A [`Timer`] keeps its state as plain integers; advancing it is delegated
//! to `bevy::time::Timer`, so that it clamps and wraps as the engine's own
//! timers do.

use std::time::Duration;
use vstd::prelude::*;

verus! {

/// What a timer does once its duration has been reached.
#[derive(Clone, Copy, Debug, PartialEq, Eq, Structural)]
pub enum TimerMode {
    /// Run once and stay finished until reset.
    Once,
    /// Wrap around; finished only on the tick that reached the duration.
    Repeating,
}

/// A countdown over `duration` nanoseconds.
#[derive(Clone, Copy, Debug, PartialEq, Eq, Structural)]
pub struct Timer {
    /// Nanoseconds after which the timer finishes.
    pub duration: u64,
    /// Nanoseconds counted so far.
    pub elapsed: u64,
    /// Whether the last tick reached the duration.
    pub finished: bool,
    /// Behaviour at the end of the duration.
    pub mode: TimerMode,
}

/// The stopwatch reading after `delta` more nanoseconds on an unfinished
/// timer: the sum while it stays below `duration`; at or beyond it, a
/// one-shot timer stops at `duration` and a repeating one keeps the
/// remainder (zero for a zero duration).
pub open spec fn advanced_elapsed(duration: int, repeating: bool, elapsed: int, delta: int) -> int {
    if elapsed + delta < duration {
        elapsed + delta
    } else if !repeating {
        duration
    } else if duration == 0 {
        0
    } else {
        (elapsed + delta) % duration
    }
}

/// Advances a fresh `bevy::time::Timer` of the given duration and mode,
/// whose stopwatch was set to `elapsed`, by `delta` (`Timer::new`,
/// `set_elapsed`, `tick`), and reads back `elapsed()` and `finished()`.
///
/// Trusted: the timer finishes exactly when the stopwatch reaches the
/// duration, and the stopwatch then reads as [`advanced_elapsed`] says.
#[verifier::external_body]
fn engine_tick(duration: u64, mode: TimerMode, elapsed: u64, delta: u64) -> (r: (u64, bool))
    ensures
        r.0 == advanced_elapsed(duration as int, mode == TimerMode::Repeating, elapsed as int, delta as int),
        r.1 == (elapsed + delta >= duration),
{
    let engine_mode = match mode {
        TimerMode::Once => bevy::time::TimerMode::Once,
        TimerMode::Repeating => bevy::time::TimerMode::Repeating,
    };
    let mut timer = bevy::time::Timer::new(Duration::from_nanos(duration), engine_mode);
    timer.set_elapsed(Duration::from_nanos(elapsed));
    timer.tick(Duration::from_nanos(delta));
    (timer.elapsed().as_nanos() as u64, timer.finished())
}

impl Timer {
    /// The timer after a tick of `delta` nanoseconds.
    ///
    /// A finished one-shot timer stays as it is. Otherwise the timer is
    /// finished exactly if the stopwatch reached the duration on this tick.
    pub open spec fn ticked(self, delta: u64) -> Timer {
        if self.mode == TimerMode::Once && self.finished {
            self
        } else {
            Timer {
                duration: self.duration,
                elapsed: advanced_elapsed(
                    self.duration as int,
                    self.mode == TimerMode::Repeating,
                    self.elapsed as int,
                    delta as int,
                ) as u64,
                finished: self.elapsed + delta >= self.duration,
                mode: self.mode,
            }
        }
    }

    /// The timer with its stopwatch back at zero and not finished.
    pub open spec fn cleared(self) -> Timer {
        Timer { duration: self.duration, elapsed: 0, finished: false, mode: self.mode }
    }

    /// A timer over `duration` nanoseconds that has not started counting.
    pub fn new(duration: u64, mode: TimerMode) -> (timer: Timer)
        ensures
            timer == (Timer { duration, elapsed: 0, finished: false, mode }),
    {
        Timer { duration, elapsed: 0, finished: false, mode }
    }

    /// Whether the timer has reached its duration. For a repeating timer
    /// this holds only right after the tick that reached it.
    pub fn finished(&self) -> (done: bool)
        ensures
            done == self.finished,
    {
        self.finished
    }

    /// Nanoseconds counted so far.
    pub fn elapsed(&self) -> (ns: u64)
        ensures
            ns == self.elapsed,
    {
        self.elapsed
    }

    /// Nanoseconds left until the timer finishes; zero once the stopwatch
    /// has reached the duration.
    pub fn remaining(&self) -> (ns: u64)
        ensures
            ns == if self.elapsed >= self.duration { 0 } else { self.duration - self.elapsed },
    {
        self.duration.saturating_sub(self.elapsed)
    }

    /// Advances the timer by `delta` nanoseconds.
    pub fn tick(&mut self, delta: u64)
        ensures
            *final(self) == old(self).ticked(delta),
    {
        if self.finished && self.mode == TimerMode::Once {
            return;
        }
        let (elapsed, finished) = engine_tick(self.duration, self.mode, self.elapsed, delta);
        self.elapsed = elapsed;
        self.finished = finished;
    }

    /// Sets the stopwatch back to zero and clears the finished state.
    pub fn reset(&mut self)
        ensures
            *final(self) == old(self).cleared(),
    {
        self.elapsed = 0;
        self.finished = false;
    }
}

} // verus!
