//! One ray of the fan: the observer pose it was cast from, its fixed
//! angular offset within the fan, and the hit it last found.
//!
//! A descriptor is refreshed from the observer each frame (a plain copy)
//! and re-cast against the grid; the offset never changes after fan
//! construction.

use vstd::prelude::*;
use crate::angle::{get_normalized_angle, is_normalized, norm_angle, spec_facing_down,
    spec_facing_left, spec_facing_right, spec_facing_up, spec_horizontal, spec_vertical,
    FULL_TURN, HALF_TURN, QUARTER_TURN, THREE_QUARTER_TURN};
use crate::caster::{cap_len, family_len, spec_cast_distance, spec_cast_family, sweep_cols,
    sweep_cols_sq, sweep_rows, sweep_rows_sq, HitFamily};
use crate::direction::Direction;
use crate::grid::Grid;
use crate::player::Player;

verus! {

/// A ray descriptor: origin and heading copied from the observer, the
/// ray's own angular offset, and the last hit's length and family.
#[derive(Copy, Clone)]
pub struct Ray {
    pub x: i64,
    pub y: i64,
    pub orientation: u32,
    pub angle_offset: i64,
    pub length: i64,
    pub hit_vertical: bool,
}

impl Ray {
    /// The heading is in normal form and the offset within one turn.
    pub open spec fn wf(self) -> bool {
        &&& is_normalized(self.orientation as int)
        &&& -FULL_TURN <= self.angle_offset <= FULL_TURN
    }

    /// The angle the ray actually travels along: heading plus offset,
    /// normalized.
    pub open spec fn spec_effective_angle(self) -> int {
        norm_angle(self.orientation + self.angle_offset)
    }

    /// The all-zero ray.
    pub fn default() -> (r: Self)
        ensures
            r.x == 0 && r.y == 0 && r.orientation == 0 && r.angle_offset == 0,
            r.length == 0 && !r.hit_vertical,
            r.wf(),
    {
        Ray { x: 0, y: 0, orientation: 0, angle_offset: 0, length: 0, hit_vertical: false }
    }

    /// A ray at the given origin and heading with its fan offset; no hit
    /// yet.
    pub fn new(x: i64, y: i64, angle_offset: i64, orientation: u32) -> (r: Self)
        requires
            is_normalized(orientation as int),
            -FULL_TURN <= angle_offset <= FULL_TURN,
        ensures
            r.x == x && r.y == y && r.orientation == orientation && r.angle_offset == angle_offset,
            r.length == 0 && !r.hit_vertical,
            r.wf(),
    {
        Ray { x, y, angle_offset, orientation, length: 0, hit_vertical: false }
    }

    /// The effective angle as a normalized unit count.
    pub fn effective_angle(&self) -> (r: u32)
        requires
            self.wf(),
        ensures
            r == self.spec_effective_angle(),
            is_normalized(r as int),
    {
        get_normalized_angle(self.orientation as i64 + self.angle_offset)
    }

    /// Whether the ray travels toward decreasing row coordinates.
    pub fn is_facing_up(&self) -> (r: bool)
        requires
            self.wf(),
        ensures
            r == spec_facing_up(self.spec_effective_angle()),
    {
        self.effective_angle() > HALF_TURN
    }

    /// Whether the ray travels toward increasing row coordinates.
    pub fn is_facing_down(&self) -> (r: bool)
        requires
            self.wf(),
        ensures
            r == spec_facing_down(self.spec_effective_angle()),
    {
        self.effective_angle() < HALF_TURN
    }

    /// Whether the ray travels toward decreasing column coordinates.
    pub fn is_facing_left(&self) -> (r: bool)
        requires
            self.wf(),
        ensures
            r == spec_facing_left(self.spec_effective_angle()),
    {
        let a = self.effective_angle();
        QUARTER_TURN < a && a < THREE_QUARTER_TURN
    }

    /// Whether the ray travels toward increasing column coordinates.
    pub fn is_facing_right(&self) -> (r: bool)
        requires
            self.wf(),
        ensures
            r == spec_facing_right(self.spec_effective_angle()),
    {
        let a = self.effective_angle();
        a < QUARTER_TURN || a > THREE_QUARTER_TURN
    }

    /// Whether the ray is exactly row-parallel, so the row sweep reports
    /// the sentinel at once.
    pub fn is_horizontal(&self) -> (r: bool)
        requires
            self.wf(),
        ensures
            r == spec_horizontal(self.spec_effective_angle()),
    {
        let a = self.effective_angle();
        a == 0 || a == HALF_TURN
    }

    /// Whether the ray is exactly column-parallel, so the column sweep
    /// reports the sentinel at once.
    pub fn is_vertical(&self) -> (r: bool)
        requires
            self.wf(),
        ensures
            r == spec_vertical(self.spec_effective_angle()),
    {
        let a = self.effective_angle();
        a == QUARTER_TURN || a == THREE_QUARTER_TURN
    }

    /// The signed x distance from the origin to the first column boundary
    /// in the direction of travel, or the sentinel for a column-parallel
    /// ray that never crosses one.
    pub fn get_x0(&self, cell_w: i64, max_ray_length: i64) -> (r: i64)
        requires
            self.wf(),
            0 <= self.x,
            1 <= cell_w,
        ensures
            spec_facing_left(self.spec_effective_angle()) ==> r == -(self.x % cell_w),
            spec_facing_right(self.spec_effective_angle()) ==> r == cell_w - self.x % cell_w,
            spec_vertical(self.spec_effective_angle()) ==> r == max_ray_length,
    {
        if self.is_facing_left() {
            -(self.x % cell_w)
        } else if self.is_facing_right() {
            cell_w - self.x % cell_w
        } else {
            max_ray_length
        }
    }

    /// The signed y distance from the origin to the first row boundary in
    /// the direction of travel, or the sentinel at the half turn, where
    /// the ray faces neither up nor down.  (At angle zero the ray counts
    /// as facing down; being row-parallel, the row sweep never reads this
    /// value.)
    pub fn get_y0(&self, cell_h: i64, max_ray_length: i64) -> (r: i64)
        requires
            self.wf(),
            0 <= self.y,
            1 <= cell_h,
        ensures
            spec_facing_up(self.spec_effective_angle()) ==> r == -(self.y % cell_h),
            spec_facing_down(self.spec_effective_angle()) ==> r == cell_h - self.y % cell_h,
            self.spec_effective_angle() == HALF_TURN ==> r == max_ray_length,
    {
        if self.is_facing_up() {
            -(self.y % cell_h)
        } else if self.is_facing_down() {
            cell_h - self.y % cell_h
        } else {
            max_ray_length
        }
    }

    /// The capped length to the nearest wall met at a row crossing, or the
    /// sentinel when the row sweep finds none.
    pub fn get_length_horizontal_collision(
        &self,
        grid: &Grid,
        dir: &Direction,
        max_ray_length: i64,
    ) -> (r: i64)
        requires
            self.wf(),
            grid.wf(),
            dir.wf(),
            dir.spec_angle() == self.spec_effective_angle(),
            0 < max_ray_length,
        ensures
            r == family_len(
                sweep_rows_sq(*grid, self.x as int, self.y as int, *dir),
                max_ray_length as int,
            ),
            0 <= r <= max_ray_length,
    {
        let sq = sweep_rows(grid, self.x, self.y, dir);
        cap_len(sq, max_ray_length)
    }

    /// The capped length to the nearest wall met at a column crossing, or
    /// the sentinel when the column sweep finds none.
    pub fn get_length_vertical_collision(
        &self,
        grid: &Grid,
        dir: &Direction,
        max_ray_length: i64,
    ) -> (r: i64)
        requires
            self.wf(),
            grid.wf(),
            dir.wf(),
            dir.spec_angle() == self.spec_effective_angle(),
            0 < max_ray_length,
        ensures
            r == family_len(
                sweep_cols_sq(*grid, self.x as int, self.y as int, *dir),
                max_ray_length as int,
            ),
            0 <= r <= max_ray_length,
    {
        let sq = sweep_cols(grid, self.x, self.y, dir);
        cap_len(sq, max_ray_length)
    }

    /// Re-casts the ray: runs both sweeps from the ray's origin along its
    /// effective direction and stores the smaller capped length, marking
    /// whether the column family produced it.
    pub fn update_length(&mut self, grid: &Grid, dir: &Direction, max_ray_length: i64)
        requires
            old(self).wf(),
            grid.wf(),
            dir.wf(),
            dir.spec_angle() == old(self).spec_effective_angle(),
            0 < max_ray_length,
        ensures
            final(self).length == spec_cast_distance(
                *grid,
                old(self).x as int,
                old(self).y as int,
                *dir,
                max_ray_length as int,
            ),
            final(self).hit_vertical == (spec_cast_family(
                *grid,
                old(self).x as int,
                old(self).y as int,
                *dir,
                max_ray_length as int,
            ) == HitFamily::Vertical),
            0 <= final(self).length <= max_ray_length,
            final(self).x == old(self).x && final(self).y == old(self).y,
            final(self).orientation == old(self).orientation,
            final(self).angle_offset == old(self).angle_offset,
            final(self).wf(),
    {
        let vertical = self.get_length_vertical_collision(grid, dir, max_ray_length);
        let horizontal = self.get_length_horizontal_collision(grid, dir, max_ray_length);
        if vertical < horizontal {
            self.length = vertical;
            self.hit_vertical = true;
        } else {
            self.length = horizontal;
            self.hit_vertical = false;
        }
    }

    /// Refreshes the descriptor from the observer's pose: origin and
    /// heading are copied, the fan offset kept.
    pub fn update_position(&mut self, player: &Player)
        requires
            old(self).wf(),
            player.wf(),
        ensures
            final(self).x == player.x && final(self).y == player.y,
            final(self).orientation == player.orientation,
            final(self).angle_offset == old(self).angle_offset,
            final(self).length == old(self).length,
            final(self).hit_vertical == old(self).hit_vertical,
            final(self).wf(),
    {
        self.x = player.x;
        self.y = player.y;
        self.orientation = player.orientation;
    }
}

} // verus!
