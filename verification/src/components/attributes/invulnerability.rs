//! The window in which an actor cannot be damaged.

use vstd::prelude::*;

verus! {

/// Whether the actor is currently immune to damage. Recomputed every tick.
#[derive(Clone, Copy, Debug, PartialEq, Eq, Structural)]
pub struct Invulnerability {
    pub active: bool,
}

impl Invulnerability {
    /// Not invulnerable.
    pub fn new() -> (i: Invulnerability)
        ensures
            !i.active,
    {
        Invulnerability { active: false }
    }

    /// Whether damage is currently ignored.
    pub fn is_active(&self) -> (active: bool)
        ensures
            active == self.active,
    {
        self.active
    }

    /// Starts ignoring damage.
    pub fn activate(&mut self)
        ensures
            final(self).active,
    {
        self.active = true;
    }

    /// Stops ignoring damage.
    pub fn deactivate(&mut self)
        ensures
            !final(self).active,
    {
        self.active = false;
    }
}

} // verus!
