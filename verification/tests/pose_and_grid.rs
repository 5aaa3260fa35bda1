//! Observer pose updates, ray descriptors, grid construction and the
//! integer helpers.

use raycaster::direction::Direction;
use raycaster::grid::{get_cell, get_column_index, get_row_index, Cell, Grid};
use raycaster::math::{get_norm, isqrt, mul_div_trunc};
use raycaster::player::Player;
use raycaster::ray::Ray;

#[test]
fn cell_constructors() {
    let d = Cell::default();
    assert_eq!(d.row, 0);
    assert_eq!(d.col, 0);
    assert!(!d.is_wall);
    let c = Cell::new(3, 7, true);
    assert_eq!(c.row, 3);
    assert_eq!(c.col, 7);
    assert!(c.is_wall);
}

#[test]
fn grid_construction_and_lookup() {
    // 3 by 2 grid, row-major: the single wall sits at column 2, row 1.
    let tiles: Vec<i32> = vec![0, 0, 0, 0, 0, 1];
    let g = Grid::new(3, 2, 50, 40, &tiles).expect("valid grid");
    assert_eq!(g.width(), 3);
    assert_eq!(g.height(), 2);
    assert_eq!(g.cell_w(), 50);
    assert_eq!(g.cell_h(), 40);
    assert!(g.is_wall(2, 1));
    assert!(!g.is_wall(0, 0));
    assert!(!g.is_wall(2, 0));
    let c = get_cell(2, 1, &g);
    assert_eq!(c.col, 2);
    assert_eq!(c.row, 1);
    assert!(c.is_wall);
    let c0 = get_cell(1, 0, &g);
    assert!(!c0.is_wall);
}

#[test]
fn grid_refuses_bad_configuration() {
    let tiles: Vec<i32> = vec![0; 6];
    assert!(Grid::new(0, 2, 50, 50, &tiles).is_none());
    assert!(Grid::new(3, 2, 0, 50, &tiles).is_none());
    assert!(Grid::new(3, 2, 50, 65537, &tiles).is_none());
    assert!(Grid::new(2000, 2, 50, 50, &tiles).is_none());
    assert!(Grid::new(3, 3, 50, 50, &tiles).is_none());
    assert!(Grid::new(3, 2, 50, 50, &tiles).is_some());
}

#[test]
fn tile_indices_from_positions() {
    assert_eq!(get_column_index(0, 50), 0);
    assert_eq!(get_column_index(49, 50), 0);
    assert_eq!(get_column_index(50, 50), 1);
    assert_eq!(get_column_index(449, 50), 8);
    assert_eq!(get_row_index(125, 50), 2);
    assert_eq!(get_row_index(125, 40), 3);
}

#[test]
fn norms_and_square_roots() {
    assert_eq!(get_norm(3, 4), 5);
    assert_eq!(get_norm(-3, 4), 5);
    assert_eq!(get_norm(0, 0), 0);
    assert_eq!(get_norm(200, 200), 282);
    assert_eq!(isqrt(0), 0);
    assert_eq!(isqrt(1), 1);
    assert_eq!(isqrt(3), 1);
    assert_eq!(isqrt(4), 2);
    assert_eq!(isqrt(40000), 200);
    assert_eq!(isqrt(u64::MAX), 0xffff_ffff);
}

#[test]
fn scaled_division_truncates_toward_zero() {
    assert_eq!(mul_div_trunc(10, 3, 4), 7);
    assert_eq!(mul_div_trunc(10, -3, 4), -7);
    assert_eq!(mul_div_trunc(50, 46340, 46340), 50);
    assert_eq!(mul_div_trunc(0, 65536, 1), 0);
}

#[test]
fn player_rotation_keeps_heading_normalized() {
    let mut p = Player::new(100, 200);
    assert_eq!(p.orientation, 0);
    p.rotate_right(5729);
    assert_eq!(p.orientation, 5729);
    p.rotate_left(10000);
    assert_eq!(p.orientation, 355729);
    p.rotate_right(4271);
    assert_eq!(p.orientation, 0);
    assert_eq!(p.x, 100);
    assert_eq!(p.y, 200);
}

#[test]
fn player_moves_along_heading() {
    let mut p = Player::new(250, 250);
    let east = Direction::new(0, 65536, 0).expect("east");
    p.move_forward(&east, 300);
    assert_eq!(p.x, 550);
    assert_eq!(p.y, 250);
    p.rotate_right(90000);
    let down = Direction::new(90000, 0, 65536).expect("down");
    p.move_forward(&down, 40);
    assert_eq!(p.x, 550);
    assert_eq!(p.y, 290);
    // A diagonal step scales each component and truncates toward zero.
    p.rotate_left(45000);
    let diag = Direction::new(45000, 46340, 46340).expect("diagonal");
    p.move_forward(&diag, 100);
    assert_eq!(p.x, 550 + (100 * 46340) / 65536);
    assert_eq!(p.y, 290 + (100 * 46340) / 65536);
}

#[test]
fn ray_descriptor_refresh_copies_pose() {
    let mut p = Player::new(10, 20);
    p.rotate_right(33000);
    let mut r = Ray::new(0, 0, -15000, 0);
    r.update_position(&p);
    assert_eq!(r.x, 10);
    assert_eq!(r.y, 20);
    assert_eq!(r.orientation, 33000);
    assert_eq!(r.angle_offset, -15000);
    assert_eq!(r.effective_angle(), 18000);
}

#[test]
fn ray_default_is_zeroed() {
    let r = Ray::default();
    assert_eq!(r.x, 0);
    assert_eq!(r.y, 0);
    assert_eq!(r.orientation, 0);
    assert_eq!(r.angle_offset, 0);
    assert_eq!(r.length, 0);
    assert!(!r.hit_vertical);
}

#[test]
fn first_boundary_offsets() {
    // At x = 225 a left-facing ray is 25 sub-units past the last column
    // line, a right-facing one 25 short of the next.
    let west = Ray::new(225, 125, 0, 180000);
    assert_eq!(west.get_x0(50, 700), -25);
    let east = Ray::new(225, 125, 0, 0);
    assert_eq!(east.get_x0(50, 700), 25);
    // A column-parallel ray never crosses a column line: sentinel.
    let down = Ray::new(225, 125, 0, 90000);
    assert_eq!(down.get_x0(50, 700), 700);
    // Row boundaries mirror the same rule; angle zero counts as facing
    // down, and only the half turn faces neither way.
    let up = Ray::new(225, 125, 0, 270000);
    assert_eq!(up.get_y0(50, 700), -25);
    assert_eq!(down.get_y0(50, 700), 25);
    assert_eq!(east.get_y0(50, 700), 25);
    assert_eq!(west.get_y0(50, 700), 700);
}
