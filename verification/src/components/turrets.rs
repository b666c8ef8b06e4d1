//! The records of the turret archetypes, their projectiles and their effects.

use crate::color::Color;
use crate::math::Vec3;
use crate::timer::{once_timer, repeating_timer, timer_fresh, timer_wf};
use crate::TurretType;
use bevy::prelude::Entity;
use bevy::time::Timer;
use vstd::prelude::*;

verus! {

/// `Entity` of `bevy`, taken as it is: a handle that is only kept and handed
/// on.
#[verifier::external_type_specification]
#[verifier::external_body]
pub struct ExEntity(Entity);

/// Marks a turret and names its kind.
#[derive(Clone, Copy, Debug, PartialEq, Eq, Structural)]
pub struct Turret(pub TurretType);

/// What a turret that aims knows: how far it sees (everything, if `None`), the
/// heading it last turned to, and whether the target is in reach.
#[derive(Clone, Copy, Debug, PartialEq, Eq, Structural)]
pub struct TargetingTurret {
    pub targeting_radius: Option<i64>,
    pub rotation: i64,
    pub has_target: bool,
}

/// Marks a turret that fires without spread.
#[derive(Clone, Copy, Debug, PartialEq, Eq, Structural)]
pub struct PreciseAttack;

/// Half the angle over which a turret's shots spread.
#[derive(Clone, Copy, Debug, PartialEq, Eq, Structural)]
pub struct AttackDispersion(pub i64);

/// Where on a turret its shots leave, in the turret's own frame.
#[derive(Clone, Copy, Debug, PartialEq, Eq, Structural)]
pub struct SpawnOffset(pub Vec3);

/// The most a turret turns in a second.
#[derive(Clone, Copy, Debug, PartialEq, Eq, Structural)]
pub struct RotationSpeed(pub i64);

/// Gates a turret's fire rate: it may fire in the frame in which the timer
/// completes its interval, once for each time it does.
pub struct AttackDelay(pub Timer);

/// The idle wander of a turret without a target. The idle timer runs while
/// there is no target; once it is through the turret is idle and the rotation
/// timer picks a new heading to drift to each time it comes round.
pub struct IdleRotation {
    pub idle_timer: Timer,
    pub rotation_timer: Timer,
    pub is_idle: bool,
    pub target_angle: i64,
}

/// Marks a turret that shoots projectiles.
#[derive(Clone, Copy, Debug, PartialEq, Eq, Structural)]
pub struct ProjectileTurret;

/// A turret that strikes everything around it.
#[derive(Clone, Copy, Debug, PartialEq, Eq, Structural)]
pub struct AoETurret {
    pub always_attacking: bool,
    pub range: i64,
}

/// A turret that holds a beam on its target. The handle is a weak one: the
/// beam may be gone, and the turret forgets it when it tears the beam down.
pub struct LaserTurret {
    pub laser_beam: Option<Entity>,
}

/// Something shot: whether it leaves the world by itself, and how close it has
/// to come to hit.
#[derive(Clone, Copy, Debug, PartialEq, Eq, Structural)]
pub struct Projectile {
    pub auto_despawn: bool,
    pub radius: i64,
}

/// Marks a beam.
#[derive(Clone, Copy, Debug, PartialEq, Eq, Structural)]
pub struct LaserBeam;

/// The speed of a projectile along its heading, per second.
#[derive(Clone, Copy, Debug, PartialEq, Eq, Structural)]
pub struct LinearVelocity(pub i64);

/// Damage dealt at once on a hit.
#[derive(Clone, Copy, Debug, PartialEq, Eq, Structural)]
pub struct InstantDamage(pub i64);

/// Damage dealt for as long as the contact lasts.
#[derive(Clone, Copy, Debug, PartialEq, Eq, Structural)]
pub struct ContinousDamage {
    pub damage_per_second: i64,
}

/// What running out of time does to a projectile.
#[derive(Clone, Copy, Debug, PartialEq, Eq, Structural)]
pub enum DecayType {
    Transparency,
    Despawn,
}

/// A projectile that runs out of time.
pub struct Decaying {
    pub decay_timer: Timer,
    pub decay_type: DecayType,
}

/// A projectile that steers at the target: within which distance, up to which
/// misalignment, and how fast.
#[derive(Clone, Copy, Debug, PartialEq, Eq, Structural)]
pub struct Homing {
    pub homing_distance: i64,
    pub homing_angle: i64,
    pub homing_speed: i64,
}

/// A projectile that bursts on impact.
#[derive(Clone, Copy, Debug, PartialEq, Eq, Structural)]
pub struct Explosive {
    pub radius: i64,
    pub damage: i64,
}

/// A burst that is asked for; it lives for one frame.
#[derive(Clone, Copy, Debug, PartialEq, Eq, Structural)]
pub struct ExplosionToSpawn {
    pub radius: i64,
    pub damage: i64,
    pub pos: Vec3,
}

/// A burst.
#[derive(Clone, Copy, Debug, PartialEq, Eq, Structural)]
pub struct Explosion {
    pub radius: i64,
    pub pos: Vec3,
}

/// How the radius of an effect changes while its animation runs.
#[derive(Clone, Copy, Debug, PartialEq, Eq, Structural)]
pub enum RadiusAnimation {
    FromBaseRadius { grow_speed: i64 },
    FromStartToEnd { start_radius: i64, end_radius: i64 },
}

/// How the colour of an effect changes while its animation runs.
#[derive(Clone, Copy, Debug, PartialEq, Eq, Structural)]
pub struct ColorAnimation {
    pub start_color: Color,
    pub end_color: Color,
    pub alpha_factor: Option<i64>,
    pub animate_alpha: bool,
}

/// The animation of an effect.
pub struct AoEAnimation {
    pub timer: Timer,
    pub radius_animation: Option<RadiusAnimation>,
    pub color_animation: Option<ColorAnimation>,
    pub despawn_on_end: bool,
}

/// A strike on everything within a radius of a point.
#[derive(Clone, Copy, Debug, PartialEq, Eq, Structural)]
pub struct AoEAttack {
    pub radius: i64,
    pub pos: Vec3,
}

/// The one entity that everything aims at, and where it was last seen.
#[derive(Clone, Copy, Debug, PartialEq, Eq, Structural)]
pub struct Target {
    pub pos: Vec3,
}

impl AttackDelay {
    /// A delay that lets through one shot every `nanos` nanoseconds.
    pub fn every(nanos: u64) -> (d: AttackDelay)
        ensures
            timer_fresh(d.0, nanos as nat, true),
    {
        AttackDelay(repeating_timer(nanos))
    }
}

impl IdleRotation {
    /// The timers are within the bounds the simulation works with.
    pub open spec fn wf(&self) -> bool {
        timer_wf(self.idle_timer) && timer_wf(self.rotation_timer)
    }

    /// A turret that goes idle after `idle_nanos` without a target and then
    /// picks a new heading every `reroll_nanos`.
    pub fn new(idle_nanos: u64, reroll_nanos: u64) -> (idle: IdleRotation)
        ensures
            idle.wf(),
            timer_fresh(idle.idle_timer, idle_nanos as nat, false),
            timer_fresh(idle.rotation_timer, reroll_nanos as nat, true),
            !idle.is_idle,
            idle.target_angle == 0,
    {
        IdleRotation {
            idle_timer: once_timer(idle_nanos),
            rotation_timer: repeating_timer(reroll_nanos),
            is_idle: false,
            target_angle: 0,
        }
    }
}

impl Default for IdleRotation {
    /// Idle after three seconds, a new heading every two.
    fn default() -> (idle: IdleRotation)
        ensures
            idle.wf(),
            timer_fresh(idle.idle_timer, 3_000_000_000, false),
            timer_fresh(idle.rotation_timer, 2_000_000_000, true),
            !idle.is_idle,
            idle.target_angle == 0,
    {
        IdleRotation::new(3_000_000_000, 2_000_000_000)
    }
}

impl Decaying {
    /// A projectile that has `nanos` nanoseconds to live or to fade.
    pub fn new(nanos: u64, decay_type: DecayType) -> (d: Decaying)
        ensures
            timer_fresh(d.decay_timer, nanos as nat, false),
            d.decay_type == decay_type,
    {
        Decaying { decay_timer: once_timer(nanos), decay_type }
    }
}

impl AoEAnimation {
    /// An animation over `nanos` nanoseconds that has not run yet.
    pub fn new(
        nanos: u64,
        radius_animation: Option<RadiusAnimation>,
        color_animation: Option<ColorAnimation>,
        despawn_on_end: bool,
    ) -> (animation: AoEAnimation)
        ensures
            timer_wf(animation.timer),
            timer_fresh(animation.timer, nanos as nat, false),
            animation.radius_animation == radius_animation,
            animation.color_animation == color_animation,
            animation.despawn_on_end == despawn_on_end,
    {
        AoEAnimation { timer: once_timer(nanos), radius_animation, color_animation, despawn_on_end }
    }
}

impl LaserTurret {
    /// Forgets the beam and hands out the handle that was held, so that the
    /// caller can tear the beam down.
    pub fn release_beam(&mut self) -> (beam: Option<Entity>)
        ensures
            beam == old(self).laser_beam,
            final(self).laser_beam is None,
    {
        self.laser_beam.take()
    }
}

} // verus!
