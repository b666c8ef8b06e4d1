//! The random stream behind idle wander and shot dispersion, and the map from
//! its raw 32-bit draws onto a range.

use crate::units::{saturate, saturate_i128, trunc_div};
use bevy_prng::ChaCha8Rng;
use rand_core::RngCore;
use vstd::prelude::*;

verus! {

/// `ChaCha8Rng` of `bevy_prng`, taken as it is: a stream of random bits of
/// which nothing is seen here.
#[verifier::external_type_specification]
#[verifier::external_body]
pub struct ExChaCha8Rng(ChaCha8Rng);

/// Where a raw draw lands between `min` and `max`: the draw, taken as a part
/// of `u32::MAX`, of the way from `min` to `max`.
pub open spec fn spread(value: int, min: int, max: int) -> int {
    min + trunc_div((max - min) * value, u32::MAX as int)
}

/// `RngCore::next_u32` of `rand_core` on the stream: hands out its next 32
/// bits. Nothing is promised of the value.
#[verifier::external_body]
pub(crate) fn next_draw(rng: &mut ChaCha8Rng) -> (draw: u32) {
    rng.next_u32()
}

/// Maps a raw draw onto the range from `min` to `max`, both ends included.
pub fn map_u32_to_range(value: u32, min: i64, max: i64) -> (r: i64)
    ensures
        r == saturate(spread(value as int, min as int, max as int)),
        min <= max ==> min <= r <= max,
{
    let width: i128 = max as i128 - min as i128;
    proof {
        lemma_part_of_width(width as int, value as int);
    }
    let part: i128 = (width * (value as i128)) / (u32::MAX as i128);
    saturate_i128(min as i128 + part)
}

/// A part of a width is no larger than the width and stays on its side of zero.
pub proof fn lemma_part_of_width(width: int, value: int)
    requires
        0 <= value <= u32::MAX,
        -0x1_0000_0000_0000_0000 <= width <= 0x1_0000_0000_0000_0000,
    ensures
        -0x1_0000_0000_0000_0000_0000_0000 <= width * value <= 0x1_0000_0000_0000_0000_0000_0000,
        width >= 0 ==> 0 <= trunc_div(width * value, u32::MAX as int) <= width,
        width <= 0 ==> width <= trunc_div(width * value, u32::MAX as int) <= 0,
        value == 0 ==> trunc_div(width * value, u32::MAX as int) == 0,
        value == u32::MAX ==> trunc_div(width * value, u32::MAX as int) == width,
{
    let top = u32::MAX as int;
    assert(-0x1_0000_0000_0000_0000_0000_0000 <= width * value <= 0x1_0000_0000_0000_0000_0000_0000)
        by (nonlinear_arith)
        requires
            0 <= value <= 0x1_0000_0000,
            -0x1_0000_0000_0000_0000 <= width <= 0x1_0000_0000_0000_0000,
    ;
    if width >= 0 {
        assert(0 <= width * value <= width * top) by (nonlinear_arith)
            requires
                0 <= value <= top,
                width >= 0,
        ;
        assert(0 <= (width * value) / top <= width) by (nonlinear_arith)
            requires
                0 <= width * value <= width * top,
                top > 0,
        ;
        assert(value == top ==> (width * value) / top == width) by (nonlinear_arith)
            requires
                top > 0,
        ;
    } else {
        let w = -width;
        assert(-(width * value) == w * value) by (nonlinear_arith)
            requires
                w == -width,
        ;
        assert(0 <= w * value <= w * top) by (nonlinear_arith)
            requires
                0 <= value <= top,
                w >= 0,
        ;
        assert(0 <= (w * value) / top <= w) by (nonlinear_arith)
            requires
                0 <= w * value <= w * top,
                top > 0,
        ;
        assert(value == top ==> (w * value) / top == w) by (nonlinear_arith)
            requires
                top > 0,
        ;
    }
    assert(value == 0 ==> width * value == 0) by (nonlinear_arith);
}

/// A draw mapped onto a range stays in it, starts at its lower end and
/// reaches its upper end.
pub proof fn lemma_spread_in_range(value: int, min: int, max: int)
    requires
        0 <= value <= u32::MAX,
        i64::MIN <= min <= max <= i64::MAX,
    ensures
        min <= spread(value, min, max) <= max,
        spread(0, min, max) == min,
        spread(u32::MAX as int, min, max) == max,
{
    lemma_part_of_width(max - min, value);
    lemma_part_of_width(max - min, 0);
    lemma_part_of_width(max - min, u32::MAX as int);
}

} // verus!
