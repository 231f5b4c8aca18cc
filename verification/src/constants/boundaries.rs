//! The rectangle that bounds the arena.

use vstd::prelude::*;
use crate::geometry::Vec2;

verus! {

/// Half the width of the arena, in thousandths of a unit.
pub const HALF_WIDTH: i32 = 3_200_000;

/// Half the height of the arena, in thousandths of a unit.
pub const HALF_HEIGHT: i32 = 1_800_000;

/// `v` held to the closed interval from `lo` to `hi`.
pub open spec fn held_between(v: int, lo: int, hi: int) -> int {
    if v < lo { lo } else if v > hi { hi } else { v }
}

/// Whether `position` lies in the arena, edges included.
pub open spec fn in_arena(position: Vec2) -> bool {
    &&& -HALF_WIDTH <= position.x <= HALF_WIDTH
    &&& -HALF_HEIGHT <= position.y <= HALF_HEIGHT
}

/// `position` with each coordinate held to the arena on its own.
pub open spec fn clamped(position: Vec2) -> Vec2 {
    Vec2 {
        x: held_between(position.x as int, -HALF_WIDTH, HALF_WIDTH as int) as i32,
        y: held_between(position.y as int, -HALF_HEIGHT, HALF_HEIGHT as int) as i32,
    }
}

/// The arena: an axis-aligned rectangle centered at the origin.
pub struct GameBoundaries;

impl GameBoundaries {
    /// The full width of the arena.
    pub fn width() -> (w: i32)
        ensures
            w == 2 * HALF_WIDTH,
    {
        HALF_WIDTH * 2
    }

    /// The full height of the arena.
    pub fn height() -> (h: i32)
        ensures
            h == 2 * HALF_HEIGHT,
    {
        HALF_HEIGHT * 2
    }

    /// The least x coordinate inside the arena.
    pub fn min_x() -> (x: i32)
        ensures
            x == -HALF_WIDTH,
    {
        -HALF_WIDTH
    }

    /// The greatest x coordinate inside the arena.
    pub fn max_x() -> (x: i32)
        ensures
            x == HALF_WIDTH,
    {
        HALF_WIDTH
    }

    /// The least y coordinate inside the arena.
    pub fn min_y() -> (y: i32)
        ensures
            y == -HALF_HEIGHT,
    {
        -HALF_HEIGHT
    }

    /// The greatest y coordinate inside the arena.
    pub fn max_y() -> (y: i32)
        ensures
            y == HALF_HEIGHT,
    {
        HALF_HEIGHT
    }

    /// Holds each coordinate of `position` to the arena.
    pub fn clamp_position(position: Vec2) -> (inside: Vec2)
        ensures
            inside == clamped(position),
            in_arena(inside),
            in_arena(position) <==> inside == position,
    {
        let x: i32 = if position.x < -HALF_WIDTH {
            -HALF_WIDTH
        } else if position.x > HALF_WIDTH {
            HALF_WIDTH
        } else {
            position.x
        };
        let y: i32 = if position.y < -HALF_HEIGHT {
            -HALF_HEIGHT
        } else if position.y > HALF_HEIGHT {
            HALF_HEIGHT
        } else {
            position.y
        };
        Vec2 { x, y }
    }

    /// Whether `position` lies in the arena, edges included.
    pub fn is_within_bounds(position: Vec2) -> (inside: bool)
        ensures
            inside == in_arena(position),
    {
        position.x >= -HALF_WIDTH && position.x <= HALF_WIDTH && position.y >= -HALF_HEIGHT
            && position.y <= HALF_HEIGHT
    }
}

} // verus!
