//! Fan offset generation, projection and screen slots.

use raycaster::fan::RayFan;
use raycaster::project::{project, strip_slot};

#[test]
fn single_ray_offset_is_exactly_zero() {
    let f = RayFan::new(1, 30000).expect("fan");
    assert_eq!(f.ray_count(), 1);
    assert_eq!(f.cone_angle(), 30000);
    assert_eq!(f.offset_num(0), 0);
    assert_eq!(f.offset_den(), 1);
    assert_eq!(f.offset_units(0), 0);
}

#[test]
fn fan_spans_the_cone_inclusive() {
    // 150 rays over a cone of 30000 units: the first offset is minus half
    // the cone, the last plus half, both endpoints included.
    let f = RayFan::new(150, 30000).expect("fan");
    assert_eq!(f.offset_units(0), -15000);
    assert_eq!(f.offset_units(149), 15000);
}

#[test]
fn fan_offsets_are_symmetric_about_zero() {
    for (count, cone) in [(150u16, 30000u32), (4, 10), (7, 123457), (2, 360000)] {
        let f = RayFan::new(count, cone).expect("fan");
        for i in 0..count {
            assert_eq!(f.offset_num(i), -f.offset_num(count - 1 - i));
            assert_eq!(f.offset_units(i), -f.offset_units(count - 1 - i));
        }
    }
}

#[test]
fn fan_offsets_round_half_away_from_zero() {
    // 4 rays over 10 units: exact offsets -5, -5/3, 5/3, 5 round to
    // -5, -2, 2, 5.
    let f = RayFan::new(4, 10).expect("fan");
    assert_eq!(f.offset_units(0), -5);
    assert_eq!(f.offset_units(1), -2);
    assert_eq!(f.offset_units(2), 2);
    assert_eq!(f.offset_units(3), 5);
}

#[test]
fn fan_refuses_bad_configuration() {
    assert!(RayFan::new(0, 30000).is_none());
    assert!(RayFan::new(10, 360001).is_none());
    assert!(RayFan::new(10, 360000).is_some());
}

#[test]
fn zero_distance_projects_full_viewport() {
    // The height numerator sits over max * 65536 * k_den; at distance zero
    // it is exactly the viewport height times that denominator.
    let den: i128 = 700 * 65536 * 2;
    assert_eq!(project(0, 65536, 500, 700, 3, 2), 500 * den);
}

#[test]
fn projection_formula_exact_value() {
    // height = vh - (3/2) * vh * d * cos / max, as a numerator over
    // max * 65536 * 2.
    let vh: i128 = 500;
    let den: i128 = 700 * 65536 * 2;
    let num = project(700, 65536, 500, 700, 3, 2);
    assert_eq!(num, vh * den - 3 * 500 * 700 * 65536);
    // A full-length perpendicular ray with k = 3/2 projects minus half the
    // viewport height.
    assert_eq!(num, -(vh * den) / 2);
}

#[test]
fn projection_decreases_with_distance() {
    let mut previous = project(0, 46340, 500, 700, 3, 2);
    for d in [1i64, 2, 50, 100, 350, 699, 700] {
        let h = project(d, 46340, 500, 700, 3, 2);
        assert!(h < previous);
        previous = h;
    }
}

#[test]
fn strip_slots_are_even_multiples() {
    assert_eq!(strip_slot(0, 1000, 150), 0);
    assert_eq!(strip_slot(3, 1000, 150), 18);
    assert_eq!(strip_slot(149, 1000, 150), 894);
    assert_eq!(strip_slot(2, 500, 10), 100);
}
