//! The observer: a 2D pose with rotate and move operations.
//!
//! The heading is always kept normalized.  Movement is unconditional —
//! there is deliberately no collision check against the grid — and steps
//! the position along the heading's direction vector, which the caller
//! supplies as a well-formed `Direction` for the current heading.

use vstd::prelude::*;
use crate::angle::{get_normalized_angle, is_normalized, norm_angle, FULL_TURN};
use crate::direction::{Direction, DIR_ONE};
use crate::math::{mul_div_trunc, scale_trunc};

verus! {

/// The observer's pose: position in sub-units and normalized heading.
pub struct Player {
    pub x: i64,
    pub y: i64,
    pub orientation: u32,
}

impl Player {
    /// The heading is in normal form.
    pub open spec fn wf(self) -> bool {
        is_normalized(self.orientation as int)
    }

    /// A pose at the given position, heading along angle zero.
    pub fn new(x: i64, y: i64) -> (r: Player)
        ensures
            r.x == x && r.y == y && r.orientation == 0,
            r.wf(),
    {
        Player { x, y, orientation: 0 }
    }

    /// Turns by `step` units toward growing angles, renormalizing.
    pub fn rotate_right(&mut self, step: u32)
        requires
            old(self).wf(),
            step < FULL_TURN,
        ensures
            final(self).orientation == norm_angle(old(self).orientation + step),
            final(self).x == old(self).x && final(self).y == old(self).y,
            final(self).wf(),
    {
        self.orientation = get_normalized_angle(self.orientation as i64 + step as i64);
    }

    /// Turns by `step` units toward shrinking angles, renormalizing.
    pub fn rotate_left(&mut self, step: u32)
        requires
            old(self).wf(),
            step < FULL_TURN,
        ensures
            final(self).orientation == norm_angle(old(self).orientation - step),
            final(self).x == old(self).x && final(self).y == old(self).y,
            final(self).wf(),
    {
        self.orientation = get_normalized_angle(self.orientation as i64 - step as i64);
    }

    /// Advances `step` sub-units along the heading, whose direction vector
    /// the caller supplies; the position moves by the truncated scaled
    /// components.  No wall check is made.
    pub fn move_forward(&mut self, dir: &Direction, step: i64)
        requires
            old(self).wf(),
            dir.wf(),
            dir.spec_angle() == old(self).orientation,
            0 <= step <= 0x10000,
            -0x1000_0000_0000 <= old(self).x <= 0x1000_0000_0000,
            -0x1000_0000_0000 <= old(self).y <= 0x1000_0000_0000,
        ensures
            final(self).x == old(self).x + scale_trunc(step as int, dir.spec_dx(), DIR_ONE as int),
            final(self).y == old(self).y + scale_trunc(step as int, dir.spec_dy(), DIR_ONE as int),
            final(self).orientation == old(self).orientation,
            final(self).wf(),
    {
        let ddx: i64 = mul_div_trunc(step, dir.dx(), DIR_ONE);
        let ddy: i64 = mul_div_trunc(step, dir.dy(), DIR_ONE);
        self.x = self.x + ddx;
        self.y = self.y + ddy;
    }
}

} // verus!
