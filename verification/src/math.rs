//! Integer helpers for the ray engine: the floor square root behind the
//! Euclidean norm, and a truncating scaled division used for stepping a
//! position by a direction ratio.

use vstd::prelude::*;

verus! {

/// The floor of the square root of `s`.
pub open spec fn sqrt_floor(s: nat) -> nat
    decreases s,
{
    if s == 0 {
        0
    } else {
        let r = sqrt_floor((s - 1) as nat);
        if (r + 1) * (r + 1) <= s {
            r + 1
        } else {
            r
        }
    }
}

/// `sqrt_floor(s)` is the unique `r` with `r * r <= s < (r + 1) * (r + 1)`.
pub proof fn lemma_sqrt_floor_bounds(s: nat)
    ensures
        sqrt_floor(s) * sqrt_floor(s) <= s,
        s < (sqrt_floor(s) + 1) * (sqrt_floor(s) + 1),
    decreases s,
{
    if s > 0 {
        lemma_sqrt_floor_bounds((s - 1) as nat);
        let r = sqrt_floor((s - 1) as nat);
        assert(r * r <= s - 1);
        assert(s - 1 < (r + 1) * (r + 1));
        if (r + 1) * (r + 1) <= s {
            assert(sqrt_floor(s) == r + 1);
            assert((r + 2) * (r + 2) > (r + 1) * (r + 1)) by (nonlinear_arith)
                requires
                    r >= 0,
            ;
            assert(s < (r + 2) * (r + 2));
        } else {
            assert(sqrt_floor(s) == r);
            assert(r * r <= s);
            assert(s < (r + 1) * (r + 1));
        }
    } else {
        assert(sqrt_floor(s) == 0);
        assert(s < (sqrt_floor(s) + 1) * (sqrt_floor(s) + 1)) by (nonlinear_arith)
            requires
                s == 0 && sqrt_floor(s) == 0,
        ;
    }
}

/// No other integer satisfies the square-root bracketing.
pub proof fn lemma_sqrt_floor_unique(s: nat, r: nat)
    requires
        r * r <= s,
        s < (r + 1) * (r + 1),
    ensures
        r == sqrt_floor(s),
{
    lemma_sqrt_floor_bounds(s);
    let q = sqrt_floor(s);
    if r < q {
        assert((r + 1) * (r + 1) <= q * q) by (nonlinear_arith)
            requires
                0 <= r + 1 <= q,
        ;
    } else if q < r {
        assert((q + 1) * (q + 1) <= r * r) by (nonlinear_arith)
            requires
                0 <= q + 1 <= r,
        ;
    }
}

/// Floor square root by bisection.
pub fn isqrt(n: u64) -> (r: u64)
    ensures
        r as nat == sqrt_floor(n as nat),
{
    if n == 0 {
        proof {
            let z: nat = 0;
            assert(z * z <= n as nat && (n as nat) < (z + 1) * (z + 1)) by (nonlinear_arith)
                requires
                    n == 0 && z == 0,
            ;
            lemma_sqrt_floor_unique(n as nat, z);
        }
        return 0;
    }
    let mut lo: u64 = 0;
    let mut hi: u64 = 0x1_0000_0000;
    assert((hi as int) * (hi as int) > n as int) by (nonlinear_arith)
        requires
            hi == 0x1_0000_0000 && n <= u64::MAX,
    ;
    while lo + 1 < hi
        invariant
            (lo as int) * (lo as int) <= n as int,
            (n as int) < (hi as int) * (hi as int),
            lo < hi <= 0x1_0000_0000,
        decreases hi - lo,
    {
        let mid: u64 = lo + (hi - lo) / 2;
        assert(lo < mid < hi);
        assert((mid as int) * (mid as int) <= 0xffff_ffff * 0xffff_ffff) by (nonlinear_arith)
            requires
                0 <= mid <= 0xffff_ffff,
        ;
        if mid * mid <= n {
            lo = mid;
        } else {
            hi = mid;
        }
    }
    proof {
        lemma_sqrt_floor_unique(n as nat, lo as nat);
    }
    lo
}

/// The Euclidean norm of `(x, y)`, rounded down to a whole sub-unit.
pub fn get_norm(x: i64, y: i64) -> (r: i64)
    requires
        -0x800_0000 <= x <= 0x800_0000,
        -0x800_0000 <= y <= 0x800_0000,
    ensures
        r as nat == sqrt_floor((x * x + y * y) as nat),
        0 <= r <= 0x1000_0000,
{
    let ax: u64 = if x < 0 {
        (-x) as u64
    } else {
        x as u64
    };
    let ay: u64 = if y < 0 {
        (-y) as u64
    } else {
        y as u64
    };
    assert(ax * ax == x * x && ay * ay == y * y && x * x + y * y <= 0x800_0000 * 0x800_0000 * 2)
        by (nonlinear_arith)
        requires
            (ax == x || ax == -x) && (ay == y || ay == -y) && 0 <= ax <= 0x800_0000 && 0 <= ay
                <= 0x800_0000,
    ;
    let s: u64 = ax * ax + ay * ay;
    let r: u64 = isqrt(s);
    proof {
        lemma_sqrt_floor_bounds(s as nat);
        assert(r <= 0x1000_0000) by {
            if r > 0x1000_0000 {
                assert((r as int) * (r as int) > 0x1000_0000 * 0x1000_0000) by (nonlinear_arith)
                    requires
                        r > 0x1000_0000,
                ;
            }
        }
    }
    r as i64
}

/// `x * num / den` truncated toward zero, for `x >= 0` and `den > 0`.
pub open spec fn scale_trunc(x: int, num: int, den: int) -> int {
    if num >= 0 {
        (x * num) / den
    } else {
        -((x * -num) / den)
    }
}

/// `num / den` rounded to the nearest whole, halves away from zero, for
/// `den > 0`.
pub open spec fn round_half_away(num: int, den: int) -> int {
    if num >= 0 {
        (2 * num + den) / (2 * den)
    } else {
        -((2 * -num + den) / (2 * den))
    }
}

/// Stepping helper: the truncated product-quotient `x * num / den`, as the
/// ray advances `num / den` sub-units across one of `x` sub-units.
pub fn mul_div_trunc(x: i64, num: i64, den: i64) -> (r: i64)
    requires
        0 <= x <= 0x10000,
        -0x10000 <= num <= 0x10000,
        1 <= den <= 0x10000,
    ensures
        r == scale_trunc(x as int, num as int, den as int),
        -0x1_0000_0000 <= r <= 0x1_0000_0000,
{
    let mag: i64 = if num < 0 {
        -num
    } else {
        num
    };
    assert(0 <= x * mag <= 0x1_0000_0000) by (nonlinear_arith)
        requires
            0 <= x <= 0x10000 && 0 <= mag <= 0x10000,
    ;
    let p: u64 = (x as u64) * (mag as u64);
    let q: u64 = p / den as u64;
    proof {
        vstd::arithmetic::div_mod::lemma_div_basics_4(p as int, den as int);
        vstd::arithmetic::div_mod::lemma_div_basics_5(p as int, den as int);
    }
    if num < 0 {
        -(q as i64)
    } else {
        q as i64
    }
}

} // verus!
