//! Containment of actors in the arena.

use vstd::prelude::*;
use crate::components::entities::boss::BossSkills;
use crate::components::entities::player::PlayerDash;
use crate::constants::boundaries::{clamped, in_arena, GameBoundaries, HALF_HEIGHT, HALF_WIDTH};
use crate::fixed::{max_int, min_int};
use crate::geometry::Vec2;

verus! {

/// The dash of a bounded actor after containment: a dash that was under
/// way when the actor had to be moved back into the arena is reset.
pub open spec fn contained_dash(position: Vec2, dash: Option<PlayerDash>) -> Option<PlayerDash> {
    match dash {
        Some(d) => if !in_arena(position) && d.is_dashing { Some(d.cleared()) } else { Some(d) },
        None => None,
    }
}

/// The skills of a bounded adversary after containment: a dash that was
/// under way when the adversary had to be moved back into the arena is
/// reset.
pub open spec fn contained_skills(position: Vec2, skills: BossSkills) -> BossSkills {
    if !in_arena(position) && skills.is_dashing { skills.ended() } else { skills }
}

/// Holds a bounded actor to the arena. Returns its position, clamped, and
/// its dash, if it has one; where the position had to be clamped, a dash
/// that was under way is interrupted and fully reset.
pub fn enforce_boundaries(position: Vec2, dash: Option<PlayerDash>) -> (contained: (Vec2, Option<PlayerDash>))
    ensures
        contained.0 == clamped(position),
        contained.1 == contained_dash(position, dash),
        in_arena(contained.0),
        in_arena(position) ==> contained == (position, dash),
        !in_arena(position) ==> match contained.1 {
            Some(d) => !d.is_dashing,
            None => true,
        },
{
    let clamped_position: Vec2 = GameBoundaries::clamp_position(position);
    if position.x != clamped_position.x || position.y != clamped_position.y {
        match dash {
            Some(d) => {
                if d.is_dashing {
                    let mut interrupted: PlayerDash = d;
                    interrupted.reset_dash();
                    return (clamped_position, Some(interrupted));
                }
            },
            None => {},
        }
    }
    (clamped_position, dash)
}

/// Holds the adversary to the arena. Returns its position, clamped; where
/// the position had to be clamped, a dash that was under way is
/// interrupted and fully reset.
pub fn enforce_boss_boundaries(position: Vec2, skills: &mut BossSkills) -> (contained: Vec2)
    ensures
        contained == clamped(position),
        *final(skills) == contained_skills(position, *old(skills)),
        in_arena(contained),
        in_arena(position) ==> contained == position && *final(skills) == *old(skills),
        !in_arena(position) ==> !final(skills).is_dashing,
{
    let clamped_position: Vec2 = GameBoundaries::clamp_position(position);
    if position.x != clamped_position.x || position.y != clamped_position.y {
        if skills.is_dashing {
            skills.reset_dash();
        }
    }
    clamped_position
}

/// An edge of the arena.
#[derive(Clone, Copy, Debug, PartialEq, Eq, Structural)]
pub enum EdgeType {
    Top,
    Bottom,
    Left,
    Right,
}

/// The distance from an edge within which its warning shows: 400 units.
pub const WARNING_DISTANCE: i32 = 400_000;

/// The opacity of a warning at full strength, in thousandths.
pub const WARNING_OPACITY: u32 = 300;

/// How far `position` is inside the given edge; negative beyond it.
pub open spec fn edge_distance(edge: EdgeType, position: Vec2) -> int {
    match edge {
        EdgeType::Top => HALF_HEIGHT - position.y,
        EdgeType::Bottom => position.y + HALF_HEIGHT,
        EdgeType::Left => position.x + HALF_WIDTH,
        EdgeType::Right => HALF_WIDTH - position.x,
    }
}

/// The strength of the warning for an edge, in thousandths: nothing
/// farther than [`WARNING_DISTANCE`] inside the edge, rising evenly to the
/// whole at the edge and beyond.
pub open spec fn warning_intensity(edge: EdgeType, position: Vec2) -> int {
    let distance = edge_distance(edge, position);
    if distance <= WARNING_DISTANCE {
        1000 - max_int((distance * 1000) / (WARNING_DISTANCE as int), 0)
    } else {
        0
    }
}

/// The opacity of the warning for an edge with the player at
/// `player_position`, in thousandths: the strength of the warning scaled
/// to [`WARNING_OPACITY`].
pub fn update_edge_warnings(edge: EdgeType, player_position: Vec2) -> (alpha: u32)
    ensures
        alpha == min_int(
            (warning_intensity(edge, player_position) * WARNING_OPACITY) / 1000,
            WARNING_OPACITY as int,
        ),
        alpha <= WARNING_OPACITY,
{
    let distance: i64 = match edge {
        EdgeType::Top => HALF_HEIGHT as i64 - player_position.y as i64,
        EdgeType::Bottom => player_position.y as i64 + HALF_HEIGHT as i64,
        EdgeType::Left => player_position.x as i64 + HALF_WIDTH as i64,
        EdgeType::Right => HALF_WIDTH as i64 - player_position.x as i64,
    };
    let intensity: i64 = if distance <= WARNING_DISTANCE as i64 {
        if distance <= 0 {
            1000
        } else {
            1000 - (distance * 1000) / (WARNING_DISTANCE as i64)
        }
    } else {
        0
    };
    let alpha: i64 = (intensity * WARNING_OPACITY as i64) / 1000;
    if alpha > WARNING_OPACITY as i64 {
        WARNING_OPACITY
    } else {
        alpha as u32
    }
}

} // verus!
