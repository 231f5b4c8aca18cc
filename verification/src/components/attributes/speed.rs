//! Base movement rate of an actor.

use vstd::prelude::*;
use crate::fixed::{fraction_of, portion, saturated};

verus! {

/// Movement rate in thousandths of a unit per second.
#[derive(Clone, Copy, Debug, PartialEq, Eq, Structural)]
pub struct Speed {
    pub value: u32,
}

impl Speed {
    /// The given rate.
    pub fn new(speed: u32) -> (s: Speed)
        ensures
            s.value == speed,
    {
        Speed { value: speed }
    }

    /// Replaces the rate.
    pub fn set(&mut self, speed: u32)
        ensures
            final(self).value == speed,
    {
        self.value = speed;
    }

    /// Scales the rate by `multiplier`, given in thousandths; the result is
    /// rounded down and saturates at the largest rate.
    pub fn modify(&mut self, multiplier: u32)
        ensures
            final(self).value == saturated(portion(old(self).value as int, multiplier as int)),
    {
        let scaled: u64 = fraction_of(self.value, multiplier);
        self.value = if scaled > u32::MAX as u64 { u32::MAX } else { scaled as u32 };
    }

    /// Raises the rate by `bonus`, saturating at the largest rate.
    pub fn add(&mut self, bonus: u32)
        ensures
            final(self).value == saturated(old(self).value + bonus),
    {
        self.value = self.value.saturating_add(bonus);
    }
}

} // verus!
