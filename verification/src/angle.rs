//! Bearings in millionths of a radian and arcs on the circle.

use vstd::prelude::*;

verus! {

/// Half a turn (pi) in millionths of a radian.
pub const HALF_TURN: i64 = 3_141_593;

/// A full turn: twice [`HALF_TURN`].
pub const FULL_TURN: i64 = 6_283_186;

/// The bearing `angle` brought into the closed range from minus half a
/// turn to half a turn by whole turns: a bearing above the range is turned
/// back until it is at most half a turn, one below it is turned forward
/// until it is at least minus half a turn, one inside it is left alone.
pub open spec fn normalized(angle: int) -> int {
    if angle > HALF_TURN {
        (angle + HALF_TURN - 1) % (FULL_TURN as int) - HALF_TURN + 1
    } else if angle < -HALF_TURN {
        (angle + HALF_TURN) % (FULL_TURN as int) - HALF_TURN
    } else {
        angle
    }
}

/// Whether the bearing `attack` lies on the arc that reaches `half_arc` to
/// either side of `center`. All three bearings are normalized first; an
/// arc whose normalized start lies above its normalized end wraps across
/// the half turn.
pub open spec fn arc_covers(center: int, half_arc: int, attack: int) -> bool {
    let start = normalized(center - half_arc);
    let end = normalized(center + half_arc);
    let bearing = normalized(attack);
    if start <= end {
        start <= bearing <= end
    } else {
        bearing >= start || bearing <= end
    }
}

/// A normalized bearing lies in the closed range, differs from the
/// bearing it came from by whole turns, and leaves each end of the range
/// to bearings that came from that side.
pub proof fn lemma_normalized_range(angle: int)
    ensures
        -HALF_TURN <= normalized(angle) <= HALF_TURN,
        (angle - normalized(angle)) % (FULL_TURN as int) == 0,
        angle > HALF_TURN ==> normalized(angle) > -HALF_TURN,
        angle < -HALF_TURN ==> normalized(angle) < HALF_TURN,
        -HALF_TURN <= angle <= HALF_TURN ==> normalized(angle) == angle,
{
}

/// An arc that reaches less than half a turn to either side covers the
/// bearing of its own center.
pub proof fn lemma_arc_covers_center(center: int, half_arc: int)
    requires
        -HALF_TURN <= center <= HALF_TURN,
        0 <= half_arc < HALF_TURN,
    ensures
        arc_covers(center, half_arc, center),
{
}

fn normalize_wide(wide: i128) -> (r: i32)
    requires
        -0x1_0000_0000_0000_0000_0000 <= wide <= 0x1_0000_0000_0000_0000_0000,
    ensures
        r == normalized(wide as int),
        -HALF_TURN <= r <= HALF_TURN,
{
    let half: i128 = HALF_TURN as i128;
    let full: i128 = FULL_TURN as i128;
    if wide > half {
        (((wide + half - 1) % full) - half + 1) as i32
    } else if wide < -half {
        let back: i128 = (-(wide + half)) % full;
        if back == 0 {
            (-half) as i32
        } else {
            (full - back - half) as i32
        }
    } else {
        wide as i32
    }
}

/// Brings `angle` into the range from minus half a turn to half a turn
/// by whole turns.
pub fn normalize_angle(angle: i64) -> (r: i32)
    ensures
        r == normalized(angle as int),
        -HALF_TURN <= r <= HALF_TURN,
        (angle - r) % (FULL_TURN as int) == 0,
        angle > HALF_TURN ==> r > -HALF_TURN,
        angle < -HALF_TURN ==> r < HALF_TURN,
        -HALF_TURN <= angle <= HALF_TURN ==> r == angle,
{
    proof {
        lemma_normalized_range(angle as int);
    }
    normalize_wide(angle as i128)
}

/// Whether the bearing `attack` lies on the arc that reaches `half_arc` to
/// either side of `center`.
pub fn arc_contains(center: i32, half_arc: u64, attack: i32) -> (inside: bool)
    ensures
        inside == arc_covers(center as int, half_arc as int, attack as int),
{
    let start: i32 = normalize_wide(center as i128 - half_arc as i128);
    let end: i32 = normalize_wide(center as i128 + half_arc as i128);
    let bearing: i32 = normalize_wide(attack as i128);
    if start <= end {
        start <= bearing && bearing <= end
    } else {
        bearing >= start || bearing <= end
    }
}

} // verus!
