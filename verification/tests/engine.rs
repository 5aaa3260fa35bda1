//! End-to-end casts against a small bordered grid.

use raycaster::caster::{cast, HitFamily};
use raycaster::direction::Direction;
use raycaster::fan::RayFan;
use raycaster::frame::cast_fan;
use raycaster::grid::Grid;
use raycaster::player::Player;
use raycaster::ray::Ray;

const MAX_RAY: i64 = 700;

/// A direction for an angle in units, components from floating trig.
fn dir_for(angle_units: u32) -> Direction {
    let rad = (angle_units as f64) * 2.0 * std::f64::consts::PI / 360000.0;
    let dx = (rad.cos() * 65536.0).trunc() as i64;
    let dy = (rad.sin() * 65536.0).trunc() as i64;
    Direction::new(angle_units, dx, dy).expect("direction consistent with angle")
}

/// A 10 by 10 grid, 50 sub-units a cell, with a solid border and one
/// interior wall at column 2, row 2.
fn bordered_grid() -> Grid {
    let mut tiles: Vec<i32> = Vec::new();
    for row in 0..10 {
        for col in 0..10 {
            let border = row == 0 || row == 9 || col == 0 || col == 9;
            let interior = row == 2 && col == 2;
            tiles.push(if border || interior { 1 } else { 0 });
        }
    }
    Grid::new(10, 10, 50, 50, &tiles).expect("valid grid")
}

/// A 10 by 10 grid with no walls at all.
fn open_grid() -> Grid {
    let tiles: Vec<i32> = vec![0; 100];
    Grid::new(10, 10, 50, 50, &tiles).expect("valid grid")
}

#[test]
fn east_ray_hits_border_vertically() {
    // Observer at the grid center facing angle zero: the east border wall's
    // near face is at x = 450, so the distance is 200 and the hit family
    // vertical.
    let g = bordered_grid();
    let hit = cast(&g, 250, 250, &dir_for(0), MAX_RAY);
    assert_eq!(hit.distance, 200);
    assert_eq!(hit.family, HitFamily::Vertical);
}

#[test]
fn quarter_turn_ray_hits_row_wall() {
    // Rotated by exactly a quarter turn the ray runs straight down in the
    // row-increasing direction: the nearest row wall's near face is at
    // y = 450, distance 200, family horizontal.
    let g = bordered_grid();
    let hit = cast(&g, 250, 250, &dir_for(90000), MAX_RAY);
    assert_eq!(hit.distance, 200);
    assert_eq!(hit.family, HitFamily::Horizontal);
}

#[test]
fn west_ray_hits_interior_wall() {
    // From (225, 125), facing a half turn (west), the interior wall tile at
    // column 2, row 2 spans x in [100, 150): its near face is at x = 150,
    // an analytic distance of 75.
    let g = bordered_grid();
    let hit = cast(&g, 225, 125, &dir_for(180000), MAX_RAY);
    assert_eq!(hit.distance, 75);
    assert_eq!(hit.family, HitFamily::Vertical);
}

#[test]
fn up_ray_hits_top_border() {
    let g = bordered_grid();
    let hit = cast(&g, 250, 250, &dir_for(270000), MAX_RAY);
    assert_eq!(hit.distance, 200);
    assert_eq!(hit.family, HitFamily::Horizontal);
}

#[test]
fn diagonal_ray_ties_to_horizontal() {
    // At an eighth of a turn both sweeps meet the corner wall tile at the
    // same crossing (450, 450): the squared distance is 200^2 + 200^2 and
    // the floor square root 282; the tie goes to the horizontal family.
    let g = bordered_grid();
    let hit = cast(&g, 250, 250, &dir_for(45000), MAX_RAY);
    assert_eq!(hit.distance, 282);
    assert_eq!(hit.family, HitFamily::Horizontal);
}

#[test]
fn open_space_reports_sentinel() {
    // No wall anywhere: the ray leaves the grid and the distance is exactly
    // the sentinel.
    let g = open_grid();
    let hit = cast(&g, 250, 250, &dir_for(0), MAX_RAY);
    assert_eq!(hit.distance, MAX_RAY);
    let hit2 = cast(&g, 250, 250, &dir_for(123000), MAX_RAY);
    assert_eq!(hit2.distance, MAX_RAY);
}

#[test]
fn origin_outside_grid_reports_sentinel() {
    let g = bordered_grid();
    let hit = cast(&g, -10, 250, &dir_for(0), MAX_RAY);
    assert_eq!(hit.distance, MAX_RAY);
    let hit2 = cast(&g, 250, 600, &dir_for(270000), MAX_RAY);
    assert_eq!(hit2.distance, MAX_RAY);
}

#[test]
fn casting_twice_gives_identical_results() {
    // Idempotence: the same ray against an unchanged grid, twice.
    let g = bordered_grid();
    for angle in [0u32, 33000, 45000, 90000, 178000, 250000, 359000] {
        let d = dir_for(angle);
        let first = cast(&g, 230, 270, &d, MAX_RAY);
        let second = cast(&g, 230, 270, &d, MAX_RAY);
        assert_eq!(first.distance, second.distance);
        assert_eq!(first.family, second.family);
    }
}

#[test]
fn far_wall_is_capped_at_sentinel() {
    // A long, thin corridor whose far wall lies beyond the ray cap: the
    // reported distance is the sentinel, as for no hit at all.
    let mut tiles: Vec<i32> = vec![0; 20];
    tiles[19] = 1;
    let g = Grid::new(20, 1, 50, 50, &tiles).expect("valid grid");
    // Far wall's near face at x = 950, origin at x = 10: true distance 940.
    let hit = cast(&g, 10, 25, &dir_for(0), MAX_RAY);
    assert_eq!(hit.distance, MAX_RAY);
}

#[test]
fn update_length_matches_cast() {
    let g = bordered_grid();
    let d = dir_for(0);
    let mut r = Ray::new(250, 250, 0, 0);
    r.update_length(&g, &d, MAX_RAY);
    assert_eq!(r.length, 200);
    assert!(r.hit_vertical);
    let d2 = dir_for(90000);
    let mut r2 = Ray::new(250, 250, 0, 90000);
    r2.update_length(&g, &d2, MAX_RAY);
    assert_eq!(r2.length, 200);
    assert!(!r2.hit_vertical);
}

#[test]
fn fan_frame_matches_single_casts() {
    // A whole frame: three rays fanned over a cone, each hit identical to
    // the one a lone cast along the same direction reports.
    let g = bordered_grid();
    let player = Player::new(250, 250);
    let fan = RayFan::new(3, 30000).expect("fan");
    let mut dirs: Vec<Direction> = Vec::new();
    for i in 0..3 {
        let offset = fan.offset_units(i);
        let angle = raycaster::angle::get_normalized_angle(player.orientation as i64 + offset);
        dirs.push(dir_for(angle));
    }
    let hits = cast_fan(&g, &player, &fan, &dirs, MAX_RAY);
    assert_eq!(hits.len(), 3);
    for i in 0..3usize {
        let single = cast(&g, player.x, player.y, &dirs[i], MAX_RAY);
        assert_eq!(hits[i].distance, single.distance);
        assert_eq!(hits[i].family, single.family);
    }
    // The center ray of the fan looks straight east.
    assert_eq!(hits[1].distance, 200);
    assert_eq!(hits[1].family, HitFamily::Vertical);
}

#[test]
fn collision_lengths_by_family() {
    let g = bordered_grid();
    let d = dir_for(0);
    let r = Ray::new(250, 250, 0, 0);
    // The ray is row-parallel: the row sweep reports the sentinel, the
    // column sweep the east wall.
    assert_eq!(r.get_length_horizontal_collision(&g, &d, MAX_RAY), MAX_RAY);
    assert_eq!(r.get_length_vertical_collision(&g, &d, MAX_RAY), 200);
}
