//! The ray fan: a bundle of angular offsets spanning a configured
//! field-of-view cone.
//!
//! For a single ray the offset is exactly zero; otherwise the offsets
//! interpolate linearly from minus half the cone to plus half the cone,
//! both endpoints included.  To keep the fan exactly symmetric in integer
//! arithmetic, each offset is carried as an exact rational: the numerator
//! `cone_angle * (2 * i - (ray_count - 1))` over the common denominator
//! `2 * (ray_count - 1)`, rounded to whole angle units only on demand,
//! halves away from zero.

use vstd::prelude::*;
use crate::angle::FULL_TURN;
use crate::math::round_half_away;

verus! {

/// The exact offset numerator of ray `i` of the fan.
pub open spec fn fan_offset_num(cone_angle: int, ray_count: int, i: int) -> int {
    if ray_count == 1 {
        0
    } else {
        cone_angle * (2 * i - (ray_count - 1))
    }
}

/// The offsets' common denominator.
pub open spec fn fan_offset_den(ray_count: int) -> int {
    if ray_count == 1 {
        1
    } else {
        2 * (ray_count - 1)
    }
}

/// A fan of evenly spaced angular offsets over a cone.
pub struct RayFan {
    ray_count: u16,
    cone_angle: u32,
    offset_nums: Vec<i64>,
    offset_den: i64,
}

impl RayFan {
    /// Number of rays in the fan.
    pub closed spec fn spec_ray_count(self) -> int {
        self.ray_count as int
    }

    /// Full width of the cone in angle units.
    pub closed spec fn spec_cone_angle(self) -> int {
        self.cone_angle as int
    }

    /// At least one ray, a cone of at most a full turn, and one stored
    /// offset numerator per ray, each equal to the fan formula.
    pub closed spec fn wf(self) -> bool {
        &&& 1 <= self.ray_count
        &&& self.cone_angle <= FULL_TURN
        &&& self.offset_nums.len() == self.ray_count
        &&& self.offset_den == fan_offset_den(self.ray_count as int)
        &&& forall|i: int|
            0 <= i < self.ray_count ==> #[trigger] self.offset_nums[i] == fan_offset_num(
                self.cone_angle as int,
                self.ray_count as int,
                i,
            )
    }

    /// Builds the fan; refused exactly when the ray count is zero or the
    /// cone wider than a full turn.
    pub fn new(ray_count: u16, cone_angle: u32) -> (r: Option<RayFan>)
        ensures
            r is Some <==> (1 <= ray_count && cone_angle <= FULL_TURN),
            r matches Some(f) ==> f.wf() && f.spec_ray_count() == ray_count
                && f.spec_cone_angle() == cone_angle,
    {
        if ray_count == 0 || cone_angle > FULL_TURN {
            return None;
        }
        let base: i64 = (ray_count as i64) - 1;
        let den: i64 = if ray_count == 1 {
            1
        } else {
            2 * base
        };
        let mut offset_nums: Vec<i64> = Vec::new();
        let mut i: u16 = 0;
        while i < ray_count
            invariant
                0 <= i <= ray_count,
                1 <= ray_count,
                cone_angle <= FULL_TURN,
                base == ray_count - 1,
                offset_nums.len() == i,
                forall|j: int|
                    0 <= j < i ==> #[trigger] offset_nums[j] == fan_offset_num(
                        cone_angle as int,
                        ray_count as int,
                        j,
                    ),
            decreases ray_count - i,
        {
            assert(-0x10_0000_0000 <= (cone_angle as int) * (2 * (i as int) - base)
                <= 0x10_0000_0000) by (nonlinear_arith)
                requires
                    0 <= cone_angle <= 0x8_0000 && -0x10000 <= 2 * (i as int) - base <= 0x10000,
            ;
            let num: i64 = (cone_angle as i64) * (2 * (i as i64) - base);
            proof {
                if ray_count == 1 {
                    assert((cone_angle as int) * (2 * (i as int) - base) == 0) by (nonlinear_arith)
                        requires
                            2 * (i as int) - base == 0,
                    ;
                }
            }
            offset_nums.push(num);
            i = i + 1;
        }
        Some(RayFan { ray_count, cone_angle, offset_nums, offset_den: den })
    }

    /// Number of rays in the fan.
    pub fn ray_count(&self) -> (r: u16)
        ensures
            r == self.spec_ray_count(),
    {
        self.ray_count
    }

    /// Full width of the cone in angle units.
    pub fn cone_angle(&self) -> (r: u32)
        ensures
            r == self.spec_cone_angle(),
    {
        self.cone_angle
    }

    /// The exact offset numerator of ray `i`.
    pub fn offset_num(&self, i: u16) -> (r: i64)
        requires
            self.wf(),
            i < self.spec_ray_count(),
        ensures
            r == fan_offset_num(self.spec_cone_angle(), self.spec_ray_count(), i as int),
    {
        self.offset_nums[i as usize]
    }

    /// The offsets' common denominator.
    pub fn offset_den(&self) -> (r: i64)
        requires
            self.wf(),
        ensures
            r == fan_offset_den(self.spec_ray_count()),
    {
        self.offset_den
    }

    /// Ray `i`'s offset rounded to whole angle units, halves away from
    /// zero; it always lies within one turn.
    pub fn offset_units(&self, i: u16) -> (r: i64)
        requires
            self.wf(),
            i < self.spec_ray_count(),
        ensures
            r == round_half_away(
                fan_offset_num(self.spec_cone_angle(), self.spec_ray_count(), i as int),
                fan_offset_den(self.spec_ray_count()),
            ),
            -FULL_TURN <= r <= FULL_TURN,
    {
        let num: i64 = self.offset_nums[i as usize];
        let den: i64 = self.offset_den;
        proof {
            if self.ray_count != 1 {
                assert(-0x10_0000_0000 <= (self.cone_angle as int) * (2 * (i as int) - (
                self.ray_count - 1)) <= 0x10_0000_0000) by (nonlinear_arith)
                    requires
                        0 <= self.cone_angle <= 0x8_0000 && -0x20000 <= 2 * (i as int) - (
                        self.ray_count - 1) <= 0x20000,
                ;
            }
        }
        let anum: i64 = if num < 0 {
            -num
        } else {
            num
        };
        proof {
            if self.ray_count == 1 {
                assert(anum == 0);
                assert(2 * anum + den < (2 * den) * (FULL_TURN + 1)) by (nonlinear_arith)
                    requires
                        anum == 0 && den == 1,
                ;
            } else {
                assert(0 <= anum <= (self.cone_angle as int) * (self.ray_count - 1))
                    by (nonlinear_arith)
                    requires
                        (anum == (self.cone_angle as int) * (2 * (i as int) - (self.ray_count - 1))
                            || anum == -((self.cone_angle as int) * (2 * (i as int) - (
                        self.ray_count - 1)))) && 0 <= i < self.ray_count && 2 <= self.ray_count
                            && 0 <= anum && 0 <= self.cone_angle,
                ;
                assert(2 * anum + den < (2 * den) * (FULL_TURN + 1)) by (nonlinear_arith)
                    requires
                        0 <= anum <= (self.cone_angle as int) * (self.ray_count - 1) && den == 2 * (
                        self.ray_count - 1) && 2 <= self.ray_count && 0 <= self.cone_angle
                            <= FULL_TURN,
                ;
            }
        }
        let q: i64 = (2 * anum + den) / (2 * den);
        proof {
            vstd::arithmetic::div_mod::lemma_div_basics_4(2 * anum + den, 2 * den);
            vstd::arithmetic::div_mod::lemma_multiply_divide_lt(
                2 * anum + den,
                2 * den,
                FULL_TURN + 1,
            );
        }
        if num < 0 {
            -q
        } else {
            q
        }
    }
}

/// Fan symmetry law: the offsets of a symmetric cone are symmetric about
/// zero — ray `i` and ray `ray_count - 1 - i` carry opposite offsets,
/// exactly as rationals and still after rounding to whole units — and a
/// fan of a single ray has the offset exactly zero.
pub proof fn lemma_fan_symmetry(cone_angle: int, ray_count: int, i: int)
    requires
        1 <= ray_count,
        0 <= i < ray_count,
        0 <= cone_angle,
    ensures
        fan_offset_num(cone_angle, ray_count, ray_count - 1 - i) == -fan_offset_num(
            cone_angle,
            ray_count,
            i,
        ),
        round_half_away(
            fan_offset_num(cone_angle, ray_count, ray_count - 1 - i),
            fan_offset_den(ray_count),
        ) == -round_half_away(fan_offset_num(cone_angle, ray_count, i), fan_offset_den(ray_count)),
        ray_count == 1 ==> fan_offset_num(cone_angle, ray_count, i) == 0 && round_half_away(
            fan_offset_num(cone_angle, ray_count, i),
            fan_offset_den(ray_count),
        ) == 0,
{
    if ray_count > 1 {
        assert(cone_angle * (2 * (ray_count - 1 - i) - (ray_count - 1)) == -(cone_angle * (2 * i - (
        ray_count - 1)))) by (nonlinear_arith);
    }
    lemma_round_half_away_odd(
        fan_offset_num(cone_angle, ray_count, i),
        fan_offset_den(ray_count),
    );
    if ray_count == 1 {
        assert(round_half_away(0, 1) == 1int / 2);
        vstd::arithmetic::div_mod::lemma_div_basics_4(1, 2);
        vstd::arithmetic::div_mod::lemma_multiply_divide_lt(1, 2, 1);
    }
}

/// The rounding is odd: negating the numerator negates the rounded value.
pub proof fn lemma_round_half_away_odd(num: int, den: int)
    requires
        1 <= den,
    ensures
        round_half_away(-num, den) == -round_half_away(num, den),
{
    if num == 0 {
        vstd::arithmetic::div_mod::lemma_div_basics_4(den, 2 * den);
        vstd::arithmetic::div_mod::lemma_multiply_divide_lt(den, 2 * den, 1);
        assert(den < (2 * den) * 1) by (nonlinear_arith)
            requires
                1 <= den,
        ;
    }
}

} // verus!
