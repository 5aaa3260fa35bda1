//! One frame of the pipeline: snapshot the observer pose, refresh every
//! ray descriptor from it, cast each ray against the grid, and hand back
//! the hits in ray order.
//!
//! The casts share nothing but the immutable grid and the one pose
//! snapshot, so each entry of the result depends only on its own ray.
//! The caller supplies one direction per ray, each consistent with that
//! ray's effective angle — heading plus rounded fan offset, normalized.

use vstd::prelude::*;
use crate::angle::norm_angle;
use crate::caster::{spec_cast_distance, spec_cast_family, HitFamily, RayHit};
use crate::direction::Direction;
use crate::fan::{fan_offset_den, fan_offset_num, RayFan};
use crate::grid::Grid;
use crate::math::round_half_away;
use crate::player::Player;
use crate::ray::Ray;

verus! {

/// The effective angle of ray `i` of a fan seen from a pose: the heading
/// plus the ray's rounded offset, normalized.
pub open spec fn fan_ray_angle(player: Player, cone_angle: int, ray_count: int, i: int) -> int {
    norm_angle(
        player.orientation + round_half_away(
            fan_offset_num(cone_angle, ray_count, i),
            fan_offset_den(ray_count),
        ),
    )
}

/// Refreshes and casts the whole fan once: the result holds, in ray
/// order, exactly the hit that a single cast from the pose along the
/// ray's direction reports.
pub fn cast_fan(
    grid: &Grid,
    player: &Player,
    fan: &RayFan,
    dirs: &Vec<Direction>,
    max_ray_length: i64,
) -> (r: Vec<RayHit>)
    requires
        grid.wf(),
        player.wf(),
        fan.wf(),
        0 < max_ray_length,
        dirs.len() == fan.spec_ray_count(),
        forall|i: int|
            0 <= i < dirs.len() ==> (#[trigger] dirs[i]).wf() && dirs[i].spec_angle()
                == fan_ray_angle(*player, fan.spec_cone_angle(), fan.spec_ray_count(), i),
    ensures
        r.len() == fan.spec_ray_count(),
        forall|i: int|
            0 <= i < r.len() ==> (#[trigger] r[i]).distance == spec_cast_distance(
                *grid,
                player.x as int,
                player.y as int,
                dirs[i],
                max_ray_length as int,
            ) && r[i].family == spec_cast_family(
                *grid,
                player.x as int,
                player.y as int,
                dirs[i],
                max_ray_length as int,
            ),
{
    let count: u16 = fan.ray_count();
    let mut hits: Vec<RayHit> = Vec::new();
    let mut i: u16 = 0;
    while i < count
        invariant
            grid.wf(),
            player.wf(),
            fan.wf(),
            0 < max_ray_length,
            count == fan.spec_ray_count(),
            dirs.len() == count,
            forall|j: int|
                0 <= j < dirs.len() ==> (#[trigger] dirs[j]).wf() && dirs[j].spec_angle()
                    == fan_ray_angle(*player, fan.spec_cone_angle(), fan.spec_ray_count(), j),
            0 <= i <= count,
            hits.len() == i,
            forall|j: int|
                0 <= j < i ==> (#[trigger] hits[j]).distance == spec_cast_distance(
                    *grid,
                    player.x as int,
                    player.y as int,
                    dirs[j],
                    max_ray_length as int,
                ) && hits[j].family == spec_cast_family(
                    *grid,
                    player.x as int,
                    player.y as int,
                    dirs[j],
                    max_ray_length as int,
                ),
        decreases count - i,
    {
        let offset: i64 = fan.offset_units(i);
        let mut ray = Ray::new(player.x, player.y, offset, player.orientation);
        ray.update_length(grid, &dirs[i as usize], max_ray_length);
        let family = if ray.hit_vertical {
            HitFamily::Vertical
        } else {
            HitFamily::Horizontal
        };
        hits.push(RayHit { distance: ray.length, family });
        i = i + 1;
    }
    hits
}

} // verus!
