//! Fixed-point units shared by the whole simulation.
//!
//! Every real quantity is a signed 64-bit count of billionths: a length of
//! `1.5` world units is `1_500_000_000`, an angle of one radian is
//! `1_000_000_000`, a fraction of one half is `500_000_000`. Time is counted in
//! whole nanoseconds, so a speed in billionths per second times a frame delta
//! in nanoseconds, divided by [`SCALE`], is again a count of billionths.
//!
//! Results that leave the 64-bit range stop at its ends; quotients round
//! toward zero.

use vstd::prelude::*;

verus! {

/// Billionths in one whole.
pub const SCALE: i64 = 1_000_000_000;

/// Half a turn. The nearest multiple of sixteen to π in billionths of a
/// radian, so that halving it down to a sixteenth stays exact.
pub const PI: i64 = 3_141_592_656;

/// A full turn, exactly twice [`PI`].
pub const TAU: i64 = 6_283_185_312;

/// A quarter turn.
pub const FRAC_PI_2: i64 = 1_570_796_328;

/// An eighth of a turn.
pub const FRAC_PI_4: i64 = 785_398_164;

/// A thirty-second of a turn.
pub const FRAC_PI_16: i64 = 196_349_541;

/// `x` held to the range of `i64`.
pub open spec fn saturate(x: int) -> int {
    if x < i64::MIN {
        i64::MIN as int
    } else if x > i64::MAX {
        i64::MAX as int
    } else {
        x
    }
}

/// The quotient of `n` by a positive `d`, rounded toward zero.
pub open spec fn trunc_div(n: int, d: int) -> int {
    if n >= 0 {
        n / d
    } else {
        -((-n) / d)
    }
}

/// The product of two fixed-point values, as a fixed-point value before it is
/// held to 64 bits.
pub open spec fn scaled_product(a: int, b: int) -> int {
    trunc_div(a * b, SCALE as int)
}

/// How far something that moves at `rate` per second gets in `delta_nanos`
/// nanoseconds, before the result is held to 64 bits.
pub open spec fn travelled(rate: int, delta_nanos: int) -> int {
    trunc_div(rate * delta_nanos, SCALE as int)
}

/// The distance between two points on a line, as a natural number.
pub open spec fn gap(a: int, b: int) -> int {
    if a >= b {
        a - b
    } else {
        b - a
    }
}

/// Holds a 128-bit value to the range of `i64`.
pub fn saturate_i128(x: i128) -> (r: i64)
    ensures
        r == saturate(x as int),
{
    if x < i64::MIN as i128 {
        i64::MIN
    } else if x > i64::MAX as i128 {
        i64::MAX
    } else {
        x as i64
    }
}

/// Adds two values and stops at the ends of the 64-bit range.
pub fn add_saturating(a: i64, b: i64) -> (r: i64)
    ensures
        r == saturate(a + b),
{
    saturate_i128(a as i128 + b as i128)
}

/// Multiplies two fixed-point values.
pub fn mul_fixed(a: i64, b: i64) -> (r: i64)
    ensures
        r == saturate(scaled_product(a as int, b as int)),
{
    proof {
        lemma_product_fits(a as int, b as int);
    }
    let wide: i128 = (a as i128) * (b as i128);
    saturate_i128(wide / (SCALE as i128))
}

/// Distance covered at `rate` per second during `delta_nanos` nanoseconds.
pub fn distance_in(rate: i64, delta_nanos: u64) -> (r: i64)
    ensures
        r == saturate(travelled(rate as int, delta_nanos as int)),
{
    proof {
        lemma_rate_product_fits(rate as int, delta_nanos as int);
    }
    let wide: i128 = (rate as i128) * (delta_nanos as i128);
    saturate_i128(wide / (SCALE as i128))
}

/// The absolute difference of two 64-bit values, which always fits in 64
/// unsigned bits.
pub fn abs_diff(a: i64, b: i64) -> (r: u64)
    ensures
        r == gap(a as int, b as int),
{
    if a >= b {
        (a as i128 - b as i128) as u64
    } else {
        (b as i128 - a as i128) as u64
    }
}

/// A multiple of a positive divisor divides back to its factor.
pub proof fn lemma_trunc_div_of_multiple(x: int, d: int)
    requires
        d > 0,
    ensures
        trunc_div(x * d, d) == x,
{
    if x >= 0 {
        assert(x * d >= 0 && (x * d) / d == x) by (nonlinear_arith)
            requires
                x >= 0,
                d > 0,
        ;
    } else {
        assert(x * d < 0 && (-(x * d)) / d == -x) by (nonlinear_arith)
            requires
                x < 0,
                d > 0,
        ;
    }
}

/// The product of two 64-bit values stays inside 128 bits.
pub proof fn lemma_product_fits(a: int, b: int)
    requires
        i64::MIN <= a <= i64::MAX,
        i64::MIN <= b <= i64::MAX,
    ensures
        i128::MIN <= a * b <= i128::MAX,
{
    assert(-0x4000_0000_0000_0000_0000_0000_0000_0000 <= a * b
        <= 0x4000_0000_0000_0000_0000_0000_0000_0000) by (nonlinear_arith)
        requires
            -0x8000_0000_0000_0000 <= a <= 0x8000_0000_0000_0000,
            -0x8000_0000_0000_0000 <= b <= 0x8000_0000_0000_0000,
    ;
}

/// A signed 64-bit rate times an unsigned 64-bit delta stays inside 128 bits.
pub proof fn lemma_rate_product_fits(rate: int, delta: int)
    requires
        i64::MIN <= rate <= i64::MAX,
        0 <= delta <= u64::MAX,
    ensures
        i128::MIN <= rate * delta <= i128::MAX,
{
    assert(-0x8000_0000_0000_0000_0000_0000_0000_0000 <= rate * delta
        <= 0x7fff_ffff_ffff_ffff_0000_0000_0000_0000) by (nonlinear_arith)
        requires
            -0x8000_0000_0000_0000 <= rate <= 0x7fff_ffff_ffff_ffff,
            0 <= delta <= 0x1_0000_0000_0000_0000,
    ;
}

} // verus!
