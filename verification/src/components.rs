//! The records an entity can carry. The first, plain set drives the movable
//! bullets and the simple turrets; the set under [`turrets`] drives the
//! turret archetypes, their projectiles and their effects.

pub mod turrets;

use crate::math::Vec3;
use crate::timer::{once_timer, repeating_timer, timer_fresh};
use bevy::time::Timer;
use vstd::prelude::*;

verus! {

/// Gates a turret's fire rate: it may fire in the frame in which the timer
/// completes its interval, once for each time it does.
pub struct AttackDelay {
    pub timer: Timer,
}

/// Something that flies at a set velocity and may leave the world by itself.
#[derive(Clone, Copy, Debug, PartialEq, Eq, Structural)]
pub struct Movable {
    pub auto_despawn: bool,
}

/// The direction of flight as parts of the bullet speed, in billionths.
#[derive(Clone, Copy, Debug, PartialEq, Eq, Structural)]
pub struct Velocity {
    pub x: i64,
    pub y: i64,
}

/// The most a turret turns in a second, in billionths of a radian.
#[derive(Clone, Copy, Debug, PartialEq, Eq, Structural)]
pub struct RotationSpeed(pub i64);

/// How far a turret sees, in billionths of a world unit.
#[derive(Clone, Copy, Debug, PartialEq, Eq, Structural)]
pub struct TargetingRadius(pub i64);

/// A pointer sprite that may be attacking.
#[derive(Clone, Copy, Debug, PartialEq, Eq, Structural)]
pub struct Arrow {
    pub attacking: bool,
}

/// A turret and whether it has its target in reach.
#[derive(Clone, Copy, Debug, PartialEq, Eq, Structural)]
pub struct Turret {
    pub attacking: bool,
}

/// A turret that shoots bullets, and where on it they leave.
#[derive(Clone, Copy, Debug, PartialEq, Eq, Structural)]
pub struct ProjectileTurret {
    pub projectile_spawn_offset: Vec3,
}

/// Marks the one entity that everything aims at.
#[derive(Clone, Copy, Debug, PartialEq, Eq, Structural)]
pub struct Target;

/// Counts the time since something was hit.
pub struct HitTimer {
    pub timer: Timer,
}

impl AttackDelay {
    /// A delay that lets through one shot every `nanos` nanoseconds.
    pub fn every(nanos: u64) -> (d: AttackDelay)
        ensures
            timer_fresh(d.timer, nanos as nat, true),
    {
        AttackDelay { timer: repeating_timer(nanos) }
    }
}

impl HitTimer {
    /// A hit timer that runs out once after `nanos` nanoseconds.
    pub fn lasting(nanos: u64) -> (h: HitTimer)
        ensures
            timer_fresh(h.timer, nanos as nat, false),
    {
        HitTimer { timer: once_timer(nanos) }
    }
}

} // verus!
