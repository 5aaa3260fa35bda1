//! The projector: maps a ray's capped hit distance and angular offset to
//! a pseudo-3D wall-strip height and a horizontal screen slot.
//!
//! The height follows `viewport_height - k * viewport_height * distance *
//! cos(offset) / max_ray_length`, the cosine correcting the fisheye
//! distortion of peripheral rays.  To keep the mapping exact in integers,
//! the height is returned as a numerator over the fixed denominator
//! `max_ray_length * DIR_ONE * k_den`: the caller divides once when it
//! actually draws.  The correction factor `k` is the rational
//! `k_num / k_den`; `cos_offset` is the offset's cosine scaled by
//! `DIR_ONE`, supplied by the front end.

use vstd::prelude::*;
use crate::direction::DIR_ONE;

verus! {

/// The fixed denominator under every projected height numerator.
pub open spec fn proj_den(max_ray_length: int, k_den: int) -> int {
    max_ray_length * DIR_ONE * k_den
}

/// The projected wall-strip height times `proj_den(max_ray_length,
/// k_den)`.
pub open spec fn spec_strip_height_num(
    distance: int,
    cos_offset: int,
    viewport_height: int,
    max_ray_length: int,
    k_num: int,
    k_den: int,
) -> int {
    viewport_height * proj_den(max_ray_length, k_den) - k_num * viewport_height * distance
        * cos_offset
}

/// Projects one hit: the wall-strip height as an exact numerator over
/// `proj_den(max_ray_length, k_den)`.  A hit at distance zero projects
/// exactly the full viewport height.
pub fn project(
    distance: i64,
    cos_offset: i64,
    viewport_height: i64,
    max_ray_length: i64,
    k_num: i64,
    k_den: i64,
) -> (r: i128)
    requires
        0 <= distance <= max_ray_length,
        0 < max_ray_length <= 0x400_0000,
        0 <= cos_offset <= DIR_ONE,
        0 < viewport_height <= 0x400_0000,
        0 <= k_num <= 1024,
        1 <= k_den <= 1024,
    ensures
        r == spec_strip_height_num(
            distance as int,
            cos_offset as int,
            viewport_height as int,
            max_ray_length as int,
            k_num as int,
            k_den as int,
        ),
        distance == 0 ==> r == viewport_height * proj_den(max_ray_length as int, k_den as int),
{
    assert(0 < (max_ray_length as int) * (DIR_ONE as int) <= 0x400_0000_0000) by (nonlinear_arith)
        requires
            0 < max_ray_length <= 0x400_0000 && DIR_ONE == 0x10000,
    ;
    let a1: i128 = (max_ray_length as i128) * (DIR_ONE as i128);
    assert(0 < a1 * (k_den as i128) <= 0x10_0000_0000_0000) by (nonlinear_arith)
        requires
            0 < a1 <= 0x400_0000_0000 && 1 <= k_den <= 1024,
    ;
    let den: i128 = a1 * (k_den as i128);
    assert(0 < (viewport_height as i128) * den <= 0x40_0000_0000_0000_0000_0000)
        by (nonlinear_arith)
        requires
            0 < viewport_height <= 0x400_0000 && 0 < den <= 0x10_0000_0000_0000,
    ;
    let pos: i128 = (viewport_height as i128) * den;
    assert(0 <= (k_num as i128) * (viewport_height as i128) <= 0x10_0000_0000) by (nonlinear_arith)
        requires
            0 <= k_num <= 1024 && 0 < viewport_height <= 0x400_0000,
    ;
    let n1: i128 = (k_num as i128) * (viewport_height as i128);
    assert(0 <= n1 * (distance as i128) <= 0x4000_0000_0000_0000) by (nonlinear_arith)
        requires
            0 <= n1 <= 0x10_0000_0000 && 0 <= distance <= 0x400_0000,
    ;
    let n2: i128 = n1 * (distance as i128);
    assert(0 <= n2 * (cos_offset as i128) <= 0x4000_0000_0000_0000_0000_0000) by (nonlinear_arith)
        requires
            0 <= n2 <= 0x4000_0000_0000_0000 && 0 <= cos_offset <= 0x10000,
    ;
    let neg: i128 = n2 * (cos_offset as i128);
    proof {
        if distance == 0 {
            assert((k_num as int) * (viewport_height as int) * 0 * (cos_offset as int) == 0)
                by (nonlinear_arith);
            assert(n2 == 0) by (nonlinear_arith)
                requires
                    n2 == n1 * 0,
            ;
            assert(neg == 0) by (nonlinear_arith)
                requires
                    neg == n2 * (cos_offset as i128) && n2 == 0,
            ;
        }
    }
    pos - neg
}

/// Projection monotonicity law: for a fixed angular offset, a strictly
/// greater distance gives a strictly smaller projected height (the
/// correction factor and cosine being positive), and distance zero
/// projects exactly the full viewport height.
pub proof fn lemma_projection_monotonic(
    d1: int,
    d2: int,
    cos_offset: int,
    viewport_height: int,
    max_ray_length: int,
    k_num: int,
    k_den: int,
)
    requires
        0 <= d1 < d2,
        0 < cos_offset,
        0 < viewport_height,
        0 < max_ray_length,
        0 < k_num,
        0 < k_den,
    ensures
        spec_strip_height_num(d2, cos_offset, viewport_height, max_ray_length, k_num, k_den)
            < spec_strip_height_num(d1, cos_offset, viewport_height, max_ray_length, k_num, k_den),
        spec_strip_height_num(0, cos_offset, viewport_height, max_ray_length, k_num, k_den)
            == viewport_height * proj_den(max_ray_length, k_den),
{
    assert(k_num * viewport_height * d1 * cos_offset < k_num * viewport_height * d2 * cos_offset)
        by (nonlinear_arith)
        requires
            0 <= d1 < d2 && 0 < k_num && 0 < viewport_height && 0 < cos_offset,
    ;
    assert(k_num * viewport_height * 0 * cos_offset == 0) by (nonlinear_arith);
}

/// The horizontal screen slot of ray `index`: the index times the strip
/// width `screen_width / ray_count`.
pub fn strip_slot(index: u16, screen_width: i64, ray_count: u16) -> (r: i64)
    requires
        1 <= ray_count,
        index < ray_count,
        0 <= screen_width <= 0x400_0000,
    ensures
        r == index * ((screen_width as int) / (ray_count as int)),
        0 <= r,
{
    let w: i64 = screen_width / (ray_count as i64);
    proof {
        vstd::arithmetic::div_mod::lemma_div_basics_4(screen_width as int, ray_count as int);
        vstd::arithmetic::div_mod::lemma_div_basics_5(screen_width as int, ray_count as int);
        assert(0 <= (index as int) * (w as int) <= 0x3FF_FC00_0000) by (nonlinear_arith)
            requires
                0 <= index <= 0xffff && 0 <= w <= 0x400_0000,
        ;
    }
    (index as i64) * w
}

} // verus!
