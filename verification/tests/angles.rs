//! Angle normalization, quadrant classification and direction checking.

use raycaster::angle::get_normalized_angle;
use raycaster::direction::Direction;
use raycaster::ray::Ray;

#[test]
fn normalization_reduces_into_one_turn() {
    assert_eq!(get_normalized_angle(0), 0);
    assert_eq!(get_normalized_angle(359999), 359999);
    assert_eq!(get_normalized_angle(360000), 0);
    assert_eq!(get_normalized_angle(720000), 0);
    assert_eq!(get_normalized_angle(450000), 90000);
    assert_eq!(get_normalized_angle(-1), 359999);
    assert_eq!(get_normalized_angle(-90000), 270000);
    assert_eq!(get_normalized_angle(-720000), 0);
}

fn ray_at(angle_units: u32) -> Ray {
    Ray::new(0, 0, 0, angle_units)
}

#[test]
fn quadrant_coverage_over_a_full_turn() {
    // Spanning a full turn in small steps: exactly one of facing-left and
    // facing-right except at the two column-parallel angles, and exactly
    // one of facing-up and facing-down except at the half turn; the four
    // exceptional angles are the axis-aligned ones.
    let axes = [0u32, 90000, 180000, 270000];
    let mut samples: Vec<u32> = axes.to_vec();
    let mut a: u32 = 0;
    while a < 360000 {
        samples.push(a);
        a += 1500;
    }
    for &angle in &samples {
        let r = ray_at(angle);
        if angle == 90000 || angle == 270000 {
            assert!(r.is_vertical());
            assert!(!r.is_facing_left() && !r.is_facing_right());
        } else {
            assert!(!r.is_vertical());
            assert!(r.is_facing_left() != r.is_facing_right());
        }
        if angle == 180000 {
            assert!(!r.is_facing_up() && !r.is_facing_down());
        } else {
            assert!(r.is_facing_up() != r.is_facing_down());
        }
        assert_eq!(r.is_horizontal(), angle == 0 || angle == 180000);
    }
}

#[test]
fn facing_uses_heading_plus_offset() {
    // Heading 5000 with offset -15000 travels at 350000: up and right.
    let r = Ray::new(0, 0, -15000, 5000);
    assert_eq!(r.effective_angle(), 350000);
    assert!(r.is_facing_up());
    assert!(r.is_facing_right());
    assert!(!r.is_facing_down());
    assert!(!r.is_facing_left());
}

#[test]
fn direction_accepts_consistent_components() {
    let east = Direction::new(0, 65536, 0).expect("east");
    assert_eq!(east.angle(), 0);
    assert_eq!(east.dx(), 65536);
    assert_eq!(east.dy(), 0);
    assert!(Direction::new(90000, 0, 65536).is_some());
    assert!(Direction::new(180000, -65536, 0).is_some());
    assert!(Direction::new(270000, 0, -65536).is_some());
    assert!(Direction::new(45000, 46340, 46340).is_some());
    assert!(Direction::new(225000, -46340, -46340).is_some());
}

#[test]
fn direction_refuses_inconsistent_components() {
    // A column-parallel angle must carry a vanishing column component.
    assert!(Direction::new(90000, 100, 65536).is_none());
    // Facing left demands a negative column component.
    assert!(Direction::new(180000, 65536, 0).is_none());
    // A row-parallel angle must carry a vanishing row component.
    assert!(Direction::new(0, 65536, 12).is_none());
    // An unnormalized angle is refused.
    assert!(Direction::new(360000, 65536, 0).is_none());
    // Components above the fixed-point unit are refused.
    assert!(Direction::new(0, 65537, 0).is_none());
}
