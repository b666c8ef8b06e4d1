//! Fixed-point points and directions, and the distance tests on them. No
//! square root is taken: distances are compared through their squares, which
//! is exact.

use crate::units::{
    abs_diff, add_saturating, gap, mul_fixed, saturate, saturate_i128, scaled_product,
};
use vstd::prelude::*;

verus! {

/// A point or an offset in the world, in billionths of a world unit. `z` only
/// orders what is drawn, but it counts in a distance in space.
#[derive(Clone, Copy, Debug, PartialEq, Eq, Structural)]
pub struct Vec3 {
    pub x: i64,
    pub y: i64,
    pub z: i64,
}

/// A point in the plane, in billionths of a world unit.
#[derive(Clone, Copy, Debug, PartialEq, Eq, Structural)]
pub struct Vec2 {
    pub x: i64,
    pub y: i64,
}

/// A direction in the plane as the cosine and sine of its angle, in billionths.
#[derive(Clone, Copy, Debug, PartialEq, Eq, Structural)]
pub struct Direction {
    pub cos: i64,
    pub sin: i64,
}

/// Where an entity stands, which way it faces and how large it is drawn. The
/// heading is an angle about the z axis in billionths of a radian, zero
/// pointing up; the scale is uniform, in billionths.
#[derive(Clone, Copy, Debug, PartialEq, Eq, Structural)]
pub struct Transform {
    pub translation: Vec3,
    pub rotation: i64,
    pub scale: i64,
}

/// The square of the distance between two points in the plane; `z` is left out.
pub open spec fn planar_distance_squared(a: Vec3, b: Vec3) -> int {
    gap(a.x as int, b.x as int) * gap(a.x as int, b.x as int)
        + gap(a.y as int, b.y as int) * gap(a.y as int, b.y as int)
}

/// The square of the distance between two points in space.
pub open spec fn distance_squared(a: Vec3, b: Vec3) -> int {
    planar_distance_squared(a, b) + gap(a.z as int, b.z as int) * gap(a.z as int, b.z as int)
}

/// The planar distance from `a` to `b` is at most `radius`. A negative radius
/// reaches nothing.
pub open spec fn within_radius(a: Vec3, b: Vec3, radius: int) -> bool {
    radius >= 0 && planar_distance_squared(a, b) <= radius * radius
}

/// The planar distance from `a` to `b` is less than `radius`.
pub open spec fn inside_radius(a: Vec3, b: Vec3, radius: int) -> bool {
    radius > 0 && planar_distance_squared(a, b) < radius * radius
}

/// The distance in space from `a` to `b` is less than `reach`.
pub open spec fn closer_than(a: Vec3, b: Vec3, reach: int) -> bool {
    reach > 0 && distance_squared(a, b) < reach * reach
}

/// `offset` turned about the z axis by the angle of `facing`.
pub open spec fn rotated(offset: Vec3, facing: Direction) -> Vec3 {
    Vec3 {
        x: saturate(
            saturate(scaled_product(offset.x as int, facing.cos as int)) - saturate(
                scaled_product(offset.y as int, facing.sin as int),
            ),
        ) as i64,
        y: saturate(
            saturate(scaled_product(offset.x as int, facing.sin as int)) + saturate(
                scaled_product(offset.y as int, facing.cos as int),
            ),
        ) as i64,
        z: offset.z,
    }
}

/// The sum of two vectors, each coordinate held to 64 bits.
pub open spec fn translated(a: Vec3, b: Vec3) -> Vec3 {
    Vec3 {
        x: saturate(a.x + b.x) as i64,
        y: saturate(a.y + b.y) as i64,
        z: saturate(a.z + b.z) as i64,
    }
}

impl Transform {
    /// An entity at `translation`, facing up, drawn at its own size.
    pub fn from_translation(translation: Vec3) -> (t: Transform)
        ensures
            t == (Transform { translation, rotation: 0, scale: 1_000_000_000 }),
    {
        Transform { translation, rotation: 0, scale: 1_000_000_000 }
    }
}

impl Vec3 {
    /// The origin.
    pub fn zero() -> (v: Vec3)
        ensures
            v == (Vec3 { x: 0, y: 0, z: 0 }),
    {
        Vec3 { x: 0, y: 0, z: 0 }
    }

    /// Adds `other`, coordinate by coordinate.
    pub fn plus(self, other: Vec3) -> (v: Vec3)
        ensures
            v == translated(self, other),
    {
        Vec3 {
            x: add_saturating(self.x, other.x),
            y: add_saturating(self.y, other.y),
            z: add_saturating(self.z, other.z),
        }
    }

    /// Turns the vector about the z axis by the angle of `facing`.
    pub fn rotated_by(self, facing: Direction) -> (v: Vec3)
        ensures
            v == rotated(self, facing),
    {
        let xc: i64 = mul_fixed(self.x, facing.cos);
        let ys: i64 = mul_fixed(self.y, facing.sin);
        let xs: i64 = mul_fixed(self.x, facing.sin);
        let yc: i64 = mul_fixed(self.y, facing.cos);
        Vec3 {
            x: saturate_i128(xc as i128 - ys as i128),
            y: add_saturating(xs, yc),
            z: self.z,
        }
    }

    /// The same point with another `z`.
    pub fn with_z(self, z: i64) -> (v: Vec3)
        ensures
            v == (Vec3 { x: self.x, y: self.y, z }),
    {
        Vec3 { x: self.x, y: self.y, z }
    }
}

/// The rim of a radius belongs to it and nothing beyond does: a point at a
/// distance of exactly the radius is within it, and a point any further is
/// not.
pub proof fn lemma_radius_boundary(a: Vec3, b: Vec3, radius: int)
    requires
        radius >= 0,
    ensures
        planar_distance_squared(a, b) == radius * radius ==> within_radius(a, b, radius),
        planar_distance_squared(a, b) > radius * radius ==> !within_radius(a, b, radius),
        planar_distance_squared(a, b) < radius * radius ==> within_radius(a, b, radius),
{
}

/// Contact is strict: a point nearer than the reach is closer than it, and a
/// point at the reach or beyond is not.
pub proof fn lemma_contact_boundary(a: Vec3, b: Vec3, reach: int)
    requires
        reach > 0,
    ensures
        distance_squared(a, b) < reach * reach ==> closer_than(a, b, reach),
        distance_squared(a, b) >= reach * reach ==> !closer_than(a, b, reach),
{
}

/// The square of a 64-bit magnitude fits in 128 bits.
proof fn lemma_square_fits(a: int)
    requires
        0 <= a <= u64::MAX,
    ensures
        0 <= a * a <= u128::MAX,
{
    assert(0 <= a * a <= 0xffff_ffff_ffff_ffff * 0xffff_ffff_ffff_ffff) by (nonlinear_arith)
        requires
            0 <= a <= 0xffff_ffff_ffff_ffff,
    ;
}

/// Squares grow with their base, strictly.
proof fn lemma_square_order(a: int, b: int)
    requires
        0 <= a,
        0 <= b,
    ensures
        a <= b <==> a * a <= b * b,
        a < b <==> a * a < b * b,
{
    assert(a <= b ==> a * a <= b * b) by (nonlinear_arith)
        requires
            0 <= a,
            0 <= b,
    ;
    assert(a < b ==> a * a < b * b) by (nonlinear_arith)
        requires
            0 <= a,
            0 <= b,
    ;
    assert(b <= a ==> b * b <= a * a) by (nonlinear_arith)
        requires
            0 <= a,
            0 <= b,
    ;
    assert(b < a ==> b * b < a * a) by (nonlinear_arith)
        requires
            0 <= a,
            0 <= b,
    ;
}

/// Tests `dx*dx + dy*dy + dz*dz < reach*reach` (or `<=` when `inclusive`)
/// without leaving 128 bits.
fn squares_within(dx: u64, dy: u64, dz: u64, reach: u64, inclusive: bool) -> (b: bool)
    ensures
        b == if inclusive {
            dx * dx + dy * dy + dz * dz <= reach * reach
        } else {
            dx * dx + dy * dy + dz * dz < reach * reach
        },
{
    proof {
        lemma_square_fits(dx as int);
        lemma_square_fits(dy as int);
        lemma_square_fits(dz as int);
        lemma_square_fits(reach as int);
        lemma_square_order(dx as int, reach as int);
        lemma_square_order(dy as int, reach as int);
        lemma_square_order(dz as int, reach as int);
    }
    if dx > reach || dy > reach || dz > reach {
        return false;
    }
    let limit: u128 = (reach as u128) * (reach as u128);
    let after_x: u128 = limit - (dx as u128) * (dx as u128);
    let yy: u128 = (dy as u128) * (dy as u128);
    if yy > after_x {
        return false;
    }
    let after_y: u128 = after_x - yy;
    let zz: u128 = (dz as u128) * (dz as u128);
    if inclusive {
        zz <= after_y
    } else {
        zz < after_y
    }
}

/// Whether `b` lies within `radius` of `a` in the plane, the rim included.
pub fn is_within_radius(a: Vec3, b: Vec3, radius: i64) -> (r: bool)
    ensures
        r == within_radius(a, b, radius as int),
{
    if radius < 0 {
        return false;
    }
    squares_within(abs_diff(a.x, b.x), abs_diff(a.y, b.y), 0, radius as u64, true)
}

/// Whether `b` lies nearer to `a` in the plane than `radius`, the rim excluded.
pub fn is_inside_radius(a: Vec3, b: Vec3, radius: i64) -> (r: bool)
    ensures
        r == inside_radius(a, b, radius as int),
{
    if radius <= 0 {
        return false;
    }
    squares_within(abs_diff(a.x, b.x), abs_diff(a.y, b.y), 0, radius as u64, false)
}

/// Whether `b` lies nearer to `a` in space than the sum of two radii.
pub fn is_closer_than(a: Vec3, b: Vec3, first_radius: i64, second_radius: i64) -> (r: bool)
    ensures
        r == closer_than(a, b, first_radius + second_radius),
{
    let reach: i128 = first_radius as i128 + second_radius as i128;
    if reach <= 0 {
        return false;
    }
    squares_within(abs_diff(a.x, b.x), abs_diff(a.y, b.y), abs_diff(a.z, b.z), reach as u64, false)
}

} // verus!
