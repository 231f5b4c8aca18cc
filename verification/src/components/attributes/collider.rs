//! Circular collision shape of an actor.

use vstd::prelude::*;
use crate::geometry::Vec2;

verus! {

/// A circle around an actor's position, with its radius in thousandths of
/// a unit.
#[derive(Clone, Copy, Debug, PartialEq, Eq, Structural)]
pub struct Collider {
    pub radius: u32,
}

impl Collider {
    /// The radius is positive.
    pub open spec fn wf(self) -> bool {
        self.radius > 0
    }

    /// Whether the circle around `center` overlaps the circle `other`
    /// around `other_center`: the centers are less than the sum of the
    /// radii apart.
    pub open spec fn touches(self, center: Vec2, other: Collider, other_center: Vec2) -> bool {
        center.closer_than(other_center, self.radius + other.radius)
    }

    /// A circle of the given radius.
    pub fn new(radius: u32) -> (c: Collider)
        ensures
            c.radius == radius,
            c.wf() <==> radius > 0,
    {
        Collider { radius }
    }

    /// Whether the circle around `center` overlaps the circle `other`
    /// around `other_center`. Circles that only touch do not overlap.
    pub fn overlaps(&self, center: &Vec2, other: &Collider, other_center: &Vec2) -> (hit: bool)
        ensures
            hit == self.touches(*center, *other, *other_center),
    {
        center.is_closer_than(other_center, self.radius as u64 + other.radius as u64)
    }
}

} // verus!
