//! A ray's direction: a normalized angle together with its direction
//! vector in fixed-point, as supplied by the front end's trigonometry.
//!
//! The engine never computes a cosine or sine itself; it only needs the
//! two components as plain values whose signs agree with the angle's
//! quadrant, and steps the ray by their ratio.  A checked constructor
//! refuses inconsistent pairs, so a well-formed `Direction` always exists.

use vstd::prelude::*;
use crate::angle::{FULL_TURN, HALF_TURN, QUARTER_TURN, THREE_QUARTER_TURN, is_normalized,
    spec_facing_down, spec_facing_left, spec_facing_right, spec_facing_up, spec_horizontal,
    spec_vertical};

verus! {

/// Fixed-point scale of direction components: a component of a unit
/// vector lies in `[-DIR_ONE, DIR_ONE]`.
pub const DIR_ONE: i64 = 65536;

/// Whether a direction vector `(dx, dy)` is consistent with an angle: the
/// column component vanishes exactly on column-parallel rays and is
/// negative exactly when facing left; the row component vanishes exactly
/// on row-parallel rays and is negative exactly when facing up.
pub open spec fn dir_consistent(angle: int, dx: int, dy: int) -> bool {
    &&& is_normalized(angle)
    &&& -DIR_ONE <= dx <= DIR_ONE
    &&& -DIR_ONE <= dy <= DIR_ONE
    &&& (dx == 0 <==> spec_vertical(angle))
    &&& (dx < 0 <==> spec_facing_left(angle))
    &&& (dx > 0 <==> spec_facing_right(angle))
    &&& (dy == 0 <==> spec_horizontal(angle))
    &&& (dy < 0 <==> spec_facing_up(angle))
    &&& (dy > 0 <==> spec_facing_down(angle) && !spec_horizontal(angle))
}

/// A normalized heading with its fixed-point direction components.
#[derive(Copy, Clone)]
pub struct Direction {
    angle: u32,
    dx: i64,
    dy: i64,
}

impl Direction {
    /// The heading in angle units, normalized.
    pub closed spec fn spec_angle(self) -> int {
        self.angle as int
    }

    /// Fixed-point column component (the scaled cosine).
    pub closed spec fn spec_dx(self) -> int {
        self.dx as int
    }

    /// Fixed-point row component (the scaled sine).
    pub closed spec fn spec_dy(self) -> int {
        self.dy as int
    }

    /// The components' signs and sizes agree with the angle's quadrant.
    pub open spec fn wf(self) -> bool {
        dir_consistent(self.spec_angle(), self.spec_dx(), self.spec_dy())
    }

    /// Builds a direction from an angle and its scaled direction vector,
    /// refusing any pair whose signs do not match the angle's quadrant.
    pub fn new(angle: u32, dx: i64, dy: i64) -> (r: Option<Direction>)
        ensures
            r matches Some(d) ==> d.wf() && d.spec_angle() == angle && d.spec_dx() == dx
                && d.spec_dy() == dy,
            r is Some <==> dir_consistent(angle as int, dx as int, dy as int),
    {
        let d = Direction { angle, dx, dy };
        if !(angle < FULL_TURN) {
            return None;
        }
        if !(-DIR_ONE <= dx && dx <= DIR_ONE && -DIR_ONE <= dy && dy <= DIR_ONE) {
            return None;
        }
        let vertical = angle == QUARTER_TURN || angle == THREE_QUARTER_TURN;
        let left = QUARTER_TURN < angle && angle < THREE_QUARTER_TURN;
        let right = angle < QUARTER_TURN || angle > THREE_QUARTER_TURN;
        let horizontal = angle == 0 || angle == HALF_TURN;
        let up = angle > HALF_TURN;
        let down_strict = 0 < angle && angle < HALF_TURN;
        if !((dx == 0) == vertical && (dx < 0) == left && (dx > 0) == right) {
            return None;
        }
        if !((dy == 0) == horizontal && (dy < 0) == up && (dy > 0) == down_strict) {
            return None;
        }
        Some(d)
    }

    /// The heading in angle units.
    pub fn angle(&self) -> (r: u32)
        ensures
            r == self.spec_angle(),
    {
        self.angle
    }

    /// Fixed-point column component.
    pub fn dx(&self) -> (r: i64)
        ensures
            r == self.spec_dx(),
    {
        self.dx
    }

    /// Fixed-point row component.
    pub fn dy(&self) -> (r: i64)
        ensures
            r == self.spec_dy(),
    {
        self.dy
    }
}

} // verus!
