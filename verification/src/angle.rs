//! Angles as fixed-point units and their quadrant classification.
//!
//! An angle is a number of units, where a full turn is `FULL_TURN` units;
//! a normalized angle lies in `[0, FULL_TURN)`.  Angles grow in the
//! direction of growing row indices ("down"), so an angle strictly between
//! `0` and `HALF_TURN` faces down, and one strictly above `HALF_TURN`
//! faces up.

use vstd::prelude::*;

verus! {

/// Units in a full turn (two pi radians).
pub const FULL_TURN: u32 = 360000;

/// Units in a half turn (pi radians).
pub const HALF_TURN: u32 = 180000;

/// Units in a quarter turn (pi over two radians).
pub const QUARTER_TURN: u32 = 90000;

/// Units in three quarters of a turn.
pub const THREE_QUARTER_TURN: u32 = 270000;

/// The normal form of an angle: its Euclidean remainder modulo a full turn.
pub open spec fn norm_angle(a: int) -> int {
    a % (FULL_TURN as int)
}

/// An angle in normal form.
pub open spec fn is_normalized(a: int) -> bool {
    0 <= a < FULL_TURN
}

/// Reduces any angle, positive or negative, to `[0, FULL_TURN)`.
pub fn get_normalized_angle(angle: i64) -> (r: u32)
    requires
        -0x4000_0000_0000_0000 <= angle <= 0x4000_0000_0000_0000,
    ensures
        r == norm_angle(angle as int),
        is_normalized(r as int),
{
    let rem: i64 = angle % (FULL_TURN as i64);
    if rem < 0 {
        (rem + FULL_TURN as i64) as u32
    } else {
        rem as u32
    }
}

/// The ray points toward decreasing row coordinates.
pub open spec fn spec_facing_up(a: int) -> bool {
    a > HALF_TURN
}

/// The ray points toward increasing row coordinates.
pub open spec fn spec_facing_down(a: int) -> bool {
    a < HALF_TURN
}

/// The ray points toward decreasing column coordinates.
pub open spec fn spec_facing_left(a: int) -> bool {
    QUARTER_TURN < a && a < THREE_QUARTER_TURN
}

/// The ray points toward increasing column coordinates.
pub open spec fn spec_facing_right(a: int) -> bool {
    a < QUARTER_TURN || a > THREE_QUARTER_TURN
}

/// The ray is exactly parallel to the rows: it never crosses a row line.
pub open spec fn spec_horizontal(a: int) -> bool {
    a == 0 || a == HALF_TURN
}

/// The ray is exactly parallel to the columns: it never crosses a column line.
pub open spec fn spec_vertical(a: int) -> bool {
    a == QUARTER_TURN || a == THREE_QUARTER_TURN
}

/// Quadrant coverage law: over a full turn of normalized angles, exactly one
/// of facing-left and facing-right holds except at the two column-parallel
/// angles, where neither holds; and exactly one of facing-up and facing-down
/// holds except at `HALF_TURN`, where neither holds.  (At angle `0` the ray
/// counts as facing down, but being row-parallel its row sweep reports the
/// sentinel before that classification is consulted.)  The four exceptional
/// angles are exactly the axis-aligned ones.
pub proof fn lemma_quadrant_coverage(a: int)
    requires
        is_normalized(a),
    ensures
        !spec_vertical(a) ==> (spec_facing_left(a) != spec_facing_right(a)),
        spec_vertical(a) ==> (!spec_facing_left(a) && !spec_facing_right(a)),
        a != HALF_TURN ==> (spec_facing_up(a) != spec_facing_down(a)),
        a == HALF_TURN ==> (!spec_facing_up(a) && !spec_facing_down(a)),
        (spec_horizontal(a) || spec_vertical(a)) <==> (a == 0 || a == QUARTER_TURN
            || a == HALF_TURN || a == THREE_QUARTER_TURN),
{
}

} // verus!
