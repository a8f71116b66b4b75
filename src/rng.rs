//! Bounded random integers drawn from a uniform sample.
//!
//! A uniform sample `u` in `[0, 1)` is written as `sample / 2^32` with
//! `sample: u32`, so that the whole computation is exact integer arithmetic.
use vstd::prelude::*;

verus! {

/// Number of distinct samples: a sample `k` stands for `k / SAMPLE_SCALE`.
pub const SAMPLE_SCALE: u64 = 0x1_0000_0000;

/// The sample that stands for one half.
pub const SAMPLE_HALF: u64 = 0x8000_0000;

/// Smallest integer not below `a / b`, for `b > 0`.
pub open spec fn ceil_div(a: int, b: int) -> int {
    if a >= 0 {
        (a + b - 1) / b
    } else {
        -((-a) / b)
    }
}

/// `ceil(2·length·u − length)` for `twice_length = 2·length` and
/// `u = sample / 2^32`.
pub open spec fn random_integer_spec(twice_length: int, sample: int) -> int {
    ceil_div(twice_length * (sample - SAMPLE_HALF), SAMPLE_SCALE as int)
}

/// `ceil_div` is the ceiling: the least `r` with `r * b >= a`.
pub proof fn lemma_ceil_div_is_ceiling(a: int, b: int)
    requires
        b > 0,
    ensures
        ceil_div(a, b) * b >= a,
        (ceil_div(a, b) - 1) * b < a,
{
    if a >= 0 {
        let q = (a + b - 1) / b;
        let m = (a + b - 1) % b;
        assert(a + b - 1 == b * q + m && 0 <= m < b) by (nonlinear_arith)
            requires b > 0, q == (a + b - 1) / b, m == (a + b - 1) % b;
        assert(q * b >= a && (q - 1) * b < a) by (nonlinear_arith)
            requires a + b - 1 == b * q + m, 0 <= m < b;
    } else {
        let q = (-a) / b;
        let m = (-a) % b;
        assert(-a == b * q + m && 0 <= m < b) by (nonlinear_arith)
            requires b > 0, q == (-a) / b, m == (-a) % b;
        assert((-q) * b >= a && (-q - 1) * b < a) by (nonlinear_arith)
            requires -a == b * q + m, 0 <= m < b, b > 0;
    }
}

/// Draws an integer as `ceil(2·length·u − length)`, where `twice_length` is
/// `2·length` and `u = sample / 2^32` is the uniform sample.
///
/// The result lies in `[ceil(−length), ceil(length)]`.
pub fn random_integer(twice_length: u32, sample: u32) -> (r: i32)
    requires
        twice_length <= i32::MAX,
    ensures
        r == random_integer_spec(twice_length as int, sample as int),
        -(twice_length as int) <= 2 * r <= twice_length + 1,
{
    let t = twice_length as u64;
    let s = sample as u64;
    proof {
        lemma_random_integer_bounds(t as int, s as int);
    }
    if s >= SAMPLE_HALF {
        assert(t * (s - SAMPLE_HALF) <= 0x7fff_ffff * 0x8000_0000) by (nonlinear_arith)
            requires t <= 0x7fff_ffff, s - SAMPLE_HALF < 0x8000_0000;
        let a: u64 = t * (s - SAMPLE_HALF);
        ((a + (SAMPLE_SCALE - 1)) / SAMPLE_SCALE) as i32
    } else {
        assert(t * (SAMPLE_HALF - s) <= 0x7fff_ffff * 0x8000_0000) by (nonlinear_arith)
            requires t <= 0x7fff_ffff, SAMPLE_HALF - s <= 0x8000_0000;
        let a: u64 = t * (SAMPLE_HALF - s);
        assert(t * (s - SAMPLE_HALF) == -(t * (SAMPLE_HALF - s))) by (nonlinear_arith);
        -((a / SAMPLE_SCALE) as i32)
    }
}

proof fn lemma_random_integer_bounds(t: int, s: int)
    requires
        0 <= t <= i32::MAX,
        0 <= s < SAMPLE_SCALE,
    ensures
        -t <= 2 * random_integer_spec(t, s) <= t + 1,
{
    let a = t * (s - SAMPLE_HALF);
    let r = random_integer_spec(t, s);
    lemma_ceil_div_is_ceiling(a, SAMPLE_SCALE as int);
    assert(a >= -t * 0x8000_0000 && a <= t * 0x7fff_ffff) by (nonlinear_arith)
        requires a == t * (s - SAMPLE_HALF), 0 <= t, 0 <= s < SAMPLE_SCALE;
    assert(-t <= 2 * r) by (nonlinear_arith)
        requires r * 0x1_0000_0000 >= a, a >= -t * 0x8000_0000;
    assert(2 * r <= t + 1) by (nonlinear_arith)
        requires (r - 1) * 0x1_0000_0000 < a, a <= t * 0x7fff_ffff, t >= 0;
}

/// A velocity draw (`length = 2`, so `twice_length = 4`) is one of
/// `−2, −1, 0, 1, 2`, and it is `−2` only for the sample zero, the lower end
/// of the uniform range.
pub proof fn lemma_velocity_draw_range(sample: u32)
    ensures
        -2 <= random_integer_spec(4, sample as int) <= 2,
        random_integer_spec(4, sample as int) == -2 <==> sample == 0,
{
    let a = 4 * (sample - SAMPLE_HALF);
    lemma_ceil_div_is_ceiling(a, SAMPLE_SCALE as int);
}

} // verus!
