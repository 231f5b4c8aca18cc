//! Points of the arena plane and the straight-line motion between them.

use vstd::prelude::*;
use crate::fixed::{
    floor_sqrt, isqrt, lemma_floor_sqrt_exists, lemma_square_strict, toward_zero,
};

verus! {

/// A point or displacement in the plane, in thousandths of a unit.
#[derive(Clone, Copy, Debug, PartialEq, Eq, Structural)]
pub struct Vec2 {
    pub x: i32,
    pub y: i32,
}

/// The squared length of the displacement `(dx, dy)`.
pub open spec fn length_squared(dx: int, dy: int) -> int {
    dx * dx + dy * dy
}

/// The length of `(dx, dy)` in thousandths of a step, rounded down.
pub open spec fn fine_length(dx: int, dy: int) -> int {
    floor_sqrt(length_squared(dx, dy) * 1_000_000)
}

/// One coordinate of the displacement of length `dist` along `(dx, dy)`:
/// `d * dist / length`, rounded toward zero; zero for the zero direction.
pub open spec fn along(d: int, fine: int, dist: int) -> int {
    if fine <= 0 { 0 } else { toward_zero(d * dist * 1000, fine) }
}

/// `v` held to the range of a coordinate.
pub open spec fn held_coordinate(v: int) -> i32 {
    if v < i32::MIN { i32::MIN } else if v > i32::MAX { i32::MAX } else { v as i32 }
}

/// `origin` displaced by `dist` in the direction `(dx, dy)`. A zero
/// direction leaves the point where it is.
pub open spec fn displaced(origin: Vec2, dx: int, dy: int, dist: int) -> Vec2 {
    Vec2 {
        x: held_coordinate(origin.x + along(dx, fine_length(dx, dy), dist)),
        y: held_coordinate(origin.y + along(dy, fine_length(dx, dy), dist)),
    }
}

proof fn lemma_square_bound(d: int, m: int)
    by (nonlinear_arith)
    requires
        -m <= d <= m,
    ensures
        0 <= d * d <= m * m,
{
}

proof fn lemma_triple_bound(d: int, dist: int, m: int, n: int)
    by (nonlinear_arith)
    requires
        -m <= d <= m,
        0 <= dist <= n,
    ensures
        -(m * n * 1000) <= d * dist * 1000 <= m * n * 1000,
        d >= 0 ==> d * dist * 1000 >= 0,
        d <= 0 ==> d * dist * 1000 <= 0,
{
}

proof fn lemma_quotient_bound(a: int, b: int)
    by (nonlinear_arith)
    requires
        0 <= a,
        0 < b,
    ensures
        0 <= a / b <= a,
{
}

proof fn lemma_scaled_square(d: int, s: int)
    by (nonlinear_arith)
    requires
        0 <= d * d <= s,
    ensures
        (1000 * d) * (1000 * d) <= s * 1_000_000,
        (-1000 * d) * (-1000 * d) <= s * 1_000_000,
{
}

proof fn lemma_bounded_quotient(a: int, b: int, dist: int)
    by (nonlinear_arith)
    requires
        0 <= a <= b,
        0 < b,
        0 <= dist,
    ensures
        0 <= (a * dist) / b <= dist,
{
}

proof fn lemma_regroup(d: int, dist: int)
    by (nonlinear_arith)
    ensures
        d * dist * 1000 == (1000 * d) * dist,
        -(d * dist * 1000) == (-1000 * d) * dist,
{
}

/// No coordinate of a displacement of length `dist` exceeds `dist`.
pub proof fn lemma_along_bounded(dx: int, dy: int, dist: int)
    requires
        dist >= 0,
    ensures
        -dist <= along(dx, fine_length(dx, dy), dist) <= dist,
        -dist <= along(dy, fine_length(dx, dy), dist) <= dist,
{
    let s = length_squared(dx, dy);
    assert(dx * dx >= 0 && dy * dy >= 0) by (nonlinear_arith);
    let fine = fine_length(dx, dy);
    lemma_floor_sqrt_exists(s * 1_000_000);
    lemma_component_bounded(dx, s, fine, dist);
    lemma_component_bounded(dy, s, fine, dist);
}

proof fn lemma_component_bounded(d: int, s: int, fine: int, dist: int)
    requires
        dist >= 0,
        0 <= d * d <= s,
        fine == floor_sqrt(s * 1_000_000),
        crate::fixed::is_floor_sqrt(s * 1_000_000, fine),
    ensures
        -dist <= along(d, fine, dist) <= dist,
{
    if fine > 0 {
        lemma_scaled_square(d, s);
        lemma_regroup(d, dist);
        if d >= 0 {
            lemma_square_strict(1000 * d, fine + 1);
            assert((1000 * d) * dist >= 0) by (nonlinear_arith)
                requires
                    d >= 0,
                    dist >= 0,
            ;
            lemma_bounded_quotient(1000 * d, fine, dist);
        } else {
            lemma_square_strict(-1000 * d, fine + 1);
            assert((-1000 * d) * dist >= 0) by (nonlinear_arith)
                requires
                    d < 0,
                    dist >= 0,
            ;
            assert(d * dist * 1000 <= 0);
            lemma_bounded_quotient(-1000 * d, fine, dist);
        }
    }
}

/// A step of length `dist` moves a point by at most `dist` along either
/// axis, and not at all where the direction is zero or the step is.
pub proof fn lemma_step_bounded(origin: Vec2, dx: int, dy: int, dist: int)
    requires
        dist >= 0,
    ensures
        -dist <= displaced(origin, dx, dy, dist).x - origin.x <= dist,
        -dist <= displaced(origin, dx, dy, dist).y - origin.y <= dist,
        dist == 0 || (dx == 0 && dy == 0) ==> displaced(origin, dx, dy, dist) == origin,
{
    lemma_along_bounded(dx, dy, dist);
    if dx == 0 && dy == 0 {
        assert(length_squared(dx, dy) * 1_000_000 == 0);
        assert(crate::fixed::is_floor_sqrt(0, 0));
        crate::fixed::lemma_floor_sqrt_unique(0, 0);
    }
}

fn displace(origin: Vec2, dx: i64, dy: i64, dist: u32) -> (r: Vec2)
    requires
        -0xFFFF_FFFF <= dx <= 0xFFFF_FFFF,
        -0xFFFF_FFFF <= dy <= 0xFFFF_FFFF,
    ensures
        r == displaced(origin, dx as int, dy as int, dist as int),
{
    proof {
        lemma_square_bound(dx as int, 0xFFFF_FFFF);
        lemma_square_bound(dy as int, 0xFFFF_FFFF);
        lemma_triple_bound(dx as int, dist as int, 0xFFFF_FFFF, 0xFFFF_FFFF);
        lemma_triple_bound(dy as int, dist as int, 0xFFFF_FFFF, 0xFFFF_FFFF);
    }
    let wide_x: i128 = dx as i128;
    let wide_y: i128 = dy as i128;
    let squared: i128 = wide_x * wide_x + wide_y * wide_y;
    let fine: u64 = isqrt((squared * 1_000_000) as u128);
    if fine == 0 {
        return origin;
    }
    let reach: i128 = dist as i128;
    let step_x: i128 = (wide_x * reach * 1000) / (fine as i128);
    let step_y: i128 = (wide_y * reach * 1000) / (fine as i128);
    proof {
        if wide_x >= 0 {
            lemma_quotient_bound(wide_x * reach * 1000, fine as int);
        } else {
            lemma_quotient_bound(-(wide_x * reach * 1000), fine as int);
        }
        if wide_y >= 0 {
            lemma_quotient_bound(wide_y * reach * 1000, fine as int);
        } else {
            lemma_quotient_bound(-(wide_y * reach * 1000), fine as int);
        }
    }
    Vec2 { x: hold_coordinate(origin.x as i128 + step_x), y: hold_coordinate(origin.y as i128 + step_y) }
}

fn hold_coordinate(v: i128) -> (r: i32)
    ensures
        r == held_coordinate(v as int),
{
    if v < i32::MIN as i128 {
        i32::MIN
    } else if v > i32::MAX as i128 {
        i32::MAX
    } else {
        v as i32
    }
}

impl Vec2 {
    /// The squared distance between two points.
    pub open spec fn distance_squared_to(self, other: Vec2) -> int {
        length_squared(other.x - self.x, other.y - self.y)
    }

    /// Whether two points are less than `radius` apart.
    pub open spec fn closer_than(self, other: Vec2, radius: int) -> bool {
        self.distance_squared_to(other) < radius * radius
    }

    /// Whether two points are at most `radius` apart.
    pub open spec fn within(self, other: Vec2, radius: int) -> bool {
        self.distance_squared_to(other) <= radius * radius
    }

    /// The point reached from `self` by going `dist` toward `target`.
    pub open spec fn moved_toward(self, target: Vec2, dist: int) -> Vec2 {
        displaced(self, target.x - self.x, target.y - self.y, dist)
    }

    /// The point reached from `self` by going `dist` along `direction`.
    pub open spec fn moved_along(self, direction: Vec2, dist: int) -> Vec2 {
        displaced(self, direction.x as int, direction.y as int, dist)
    }

    /// The displacement of length `dist` that points from `self` toward
    /// `target`.
    pub open spec fn offset_to(self, target: Vec2, dist: int) -> Vec2 {
        displaced(Vec2 { x: 0, y: 0 }, target.x - self.x, target.y - self.y, dist)
    }

    /// The point with the given coordinates.
    pub fn new(x: i32, y: i32) -> (v: Vec2)
        ensures
            v == (Vec2 { x, y }),
    {
        Vec2 { x, y }
    }

    /// The origin.
    pub fn zero() -> (v: Vec2)
        ensures
            v == (Vec2 { x: 0, y: 0 }),
    {
        Vec2 { x: 0, y: 0 }
    }

    /// The squared distance to `other`.
    pub fn distance_squared(&self, other: &Vec2) -> (d: u128)
        ensures
            d == self.distance_squared_to(*other),
    {
        let dx: i128 = other.x as i128 - self.x as i128;
        let dy: i128 = other.y as i128 - self.y as i128;
        proof {
            lemma_square_bound(dx as int, 0xFFFF_FFFF);
            lemma_square_bound(dy as int, 0xFFFF_FFFF);
        }
        (dx * dx + dy * dy) as u128
    }

    /// Whether `other` is less than `radius` away.
    pub fn is_closer_than(&self, other: &Vec2, radius: u64) -> (near: bool)
        ensures
            near == self.closer_than(*other, radius as int),
    {
        proof {
            lemma_square_bound(radius as int, u64::MAX as int);
        }
        let reach: u128 = radius as u128;
        self.distance_squared(other) < reach * reach
    }

    /// Whether `other` is at most `radius` away.
    pub fn is_within(&self, other: &Vec2, radius: u64) -> (near: bool)
        ensures
            near == self.within(*other, radius as int),
    {
        proof {
            lemma_square_bound(radius as int, u64::MAX as int);
        }
        let reach: u128 = radius as u128;
        self.distance_squared(other) <= reach * reach
    }

    /// Goes `dist` from `self` straight toward `target`. The step is not
    /// shortened when it is longer than the way to the target.
    pub fn move_toward(&self, target: &Vec2, dist: u32) -> (reached: Vec2)
        ensures
            reached == self.moved_toward(*target, dist as int),
            -dist <= reached.x - self.x <= dist,
            -dist <= reached.y - self.y <= dist,
            dist == 0 || *target == *self ==> reached == *self,
    {
        proof {
            lemma_step_bounded(*self, target.x - self.x, target.y - self.y, dist as int);
        }
        displace(*self, target.x as i64 - self.x as i64, target.y as i64 - self.y as i64, dist)
    }

    /// The displacement of length `dist` that points from `self` toward
    /// `target`; zero where the two coincide.
    pub fn offset_toward(&self, target: &Vec2, dist: u32) -> (offset: Vec2)
        ensures
            offset == self.offset_to(*target, dist as int),
            -dist <= offset.x <= dist,
            -dist <= offset.y <= dist,
    {
        proof {
            lemma_step_bounded(Vec2 { x: 0, y: 0 }, target.x - self.x, target.y - self.y, dist as int);
        }
        displace(
            Vec2 { x: 0, y: 0 },
            target.x as i64 - self.x as i64,
            target.y as i64 - self.y as i64,
            dist,
        )
    }

    /// Goes `dist` from `self` along `direction`, whatever its length.
    pub fn move_along(&self, direction: &Vec2, dist: u32) -> (reached: Vec2)
        ensures
            reached == self.moved_along(*direction, dist as int),
            -dist <= reached.x - self.x <= dist,
            -dist <= reached.y - self.y <= dist,
            dist == 0 || (direction.x == 0 && direction.y == 0) ==> reached == *self,
    {
        proof {
            lemma_step_bounded(*self, direction.x as int, direction.y as int, dist as int);
        }
        displace(*self, direction.x as i64, direction.y as i64, dist)
    }
}

} // verus!
