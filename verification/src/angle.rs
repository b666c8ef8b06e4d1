//! Heading arithmetic: the shortest way round the circle and the bounded
//! rotation step that every turning thing in the simulation takes.

use crate::units::{saturate, saturate_i128, PI, TAU};
use vstd::prelude::*;

verus! {

/// Below this much misalignment a heading counts as aligned and is left alone.
pub const ROTATION_EPSILON: i64 = 10_000_000;

/// The signed shortest rotation from heading `from` to heading `to`:
/// their difference modulo a full turn, moved into `(-PI, PI]`.
pub open spec fn angle_diff(from: int, to: int) -> int {
    let around = (to - from) % (TAU as int);
    if around > PI {
        around - TAU
    } else {
        around
    }
}

/// The magnitude of `x`.
pub open spec fn magnitude(x: int) -> int {
    if x >= 0 {
        x
    } else {
        -x
    }
}

/// The sign of `x` as -1, 0 or 1.
pub open spec fn sign(x: int) -> int {
    if x > 0 {
        1
    } else if x < 0 {
        -1
    } else {
        0
    }
}

/// Of two values the one nearer to zero; the second when they are equally near.
pub open spec fn nearer_zero(a: int, b: int) -> int {
    if magnitude(a) < magnitude(b) {
        a
    } else {
        b
    }
}

/// One rotation step toward a heading that is `diff` away, when at most
/// `limit` may be turned: `min(|diff|, limit) * sign(diff)`.
pub open spec fn bounded_step(diff: int, limit: int) -> int {
    let size = if magnitude(diff) <= limit {
        magnitude(diff)
    } else {
        limit
    };
    size * sign(diff)
}

/// `angle` brought into `(-PI, PI]` without changing the direction it names.
pub open spec fn wrapped(angle: int) -> int {
    angle_diff(0, angle)
}

/// Computes the signed shortest rotation from `from` to `to`.
pub fn shortest_angle_diff(from: i64, to: i64) -> (diff: i64)
    ensures
        diff == angle_diff(from as int, to as int),
        -PI < diff <= PI,
{
    let apart: i128 = to as i128 - from as i128;
    let rest: i128 = apart % (TAU as i128);
    let around: i128 = if rest < 0 {
        rest + TAU as i128
    } else {
        rest
    };
    if around > PI as i128 {
        (around - TAU as i128) as i64
    } else {
        around as i64
    }
}

/// Returns whichever argument is nearer to zero, the second on a tie.
pub fn smaller_magnitude(a: i64, b: i64) -> (r: i64)
    ensures
        r == nearer_zero(a as int, b as int),
{
    let size_a: i128 = if a >= 0 { a as i128 } else { -(a as i128) };
    let size_b: i128 = if b >= 0 { b as i128 } else { -(b as i128) };
    if size_a < size_b {
        a
    } else {
        b
    }
}

/// Computes one rotation step toward a heading `diff` away under a cap of
/// `limit`. A step that would leave the 64-bit range stops at its end.
pub fn rotation_step(diff: i64, limit: i64) -> (step: i64)
    ensures
        step == saturate(bounded_step(diff as int, limit as int)),
{
    let size: i128 = if diff >= 0 { diff as i128 } else { -(diff as i128) };
    let capped: i128 = if size <= limit as i128 { size } else { limit as i128 };
    if diff > 0 {
        saturate_i128(capped)
    } else if diff < 0 {
        saturate_i128(-capped)
    } else {
        0
    }
}

/// Brings a heading into `(-PI, PI]`.
pub fn wrap_angle(angle: i64) -> (r: i64)
    ensures
        r == wrapped(angle as int),
        -PI < r <= PI,
{
    shortest_angle_diff(0, angle)
}

/// Turns `heading` by `step` and brings the result back into `(-PI, PI]`.
pub fn turned(heading: i64, step: i64) -> (r: i64)
    ensures
        r == wrapped(heading + step),
        -PI < r <= PI,
{
    let sum: i128 = heading as i128 + step as i128;
    let rest: i128 = sum % (TAU as i128);
    let around: i128 = if rest < 0 {
        rest + TAU as i128
    } else {
        rest
    };
    assert(around == (heading + step) % (TAU as int));
    if around > PI as i128 {
        (around - TAU as i128) as i64
    } else {
        around as i64
    }
}

/// The shortest rotation is the right one and the short one: it lies in
/// `(-PI, PI]`, and turning `from` by it lands on `to` up to whole turns.
pub proof fn lemma_shortest_angle(from: int, to: int)
    ensures
        -PI < angle_diff(from, to) <= PI,
        (from + angle_diff(from, to) - to) % (TAU as int) == 0,
{
}

/// A bounded step never overshoots: after turning by
/// `min(|diff|, limit) * sign(diff)` with a cap that is not negative, the
/// heading is no further from its target than before, and what is left is
/// exactly the old difference less the step.
pub proof fn lemma_step_never_overshoots(from: int, to: int, limit: int)
    requires
        limit >= 0,
    ensures
        ({
            let diff = angle_diff(from, to);
            let step = bounded_step(diff, limit);
            &&& angle_diff(from + step, to) == diff - step
            &&& magnitude(angle_diff(from + step, to)) <= magnitude(diff)
            &&& magnitude(step) <= limit
            &&& magnitude(diff) <= limit ==> angle_diff(from + step, to) == 0
        }),
{
}

/// Wrapping a heading keeps the direction it names: every shortest rotation
/// from or to it is unchanged.
pub proof fn lemma_wrapped_same_direction(angle: int, other: int)
    ensures
        angle_diff(wrapped(angle), other) == angle_diff(angle, other),
        angle_diff(other, wrapped(angle)) == angle_diff(other, angle),
        -PI < wrapped(angle) <= PI,
{
}

} // verus!
