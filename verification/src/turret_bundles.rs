//! The sets of records that make up a whole turret.

use crate::components::turrets::{
    AttackDelay, AttackDispersion, IdleRotation, ProjectileTurret, RotationSpeed, SpawnOffset,
    TargetingTurret, Turret,
};
use crate::math::{Transform, Vec3};
use crate::timer::timer_fresh;
use crate::units::{FRAC_PI_16, FRAC_PI_2, SCALE};
use crate::TurretType;
use vstd::prelude::*;

verus! {

/// The side of a turret's sprite, in billionths of a world unit.
pub const ARROW_SIZE: i64 = 50_000_000_000;

/// The records of a pulse blaster: a projectile turret that sees 200 units
/// far, turns a quarter turn a second, fires five times a second from the tip
/// of its sprite with a spread of a thirty-second of a turn either way, and
/// goes idle after three seconds without a target.
pub struct PulseBlasterBundle {
    pub marker: Turret,
    pub type_marker: ProjectileTurret,
    pub attack_dispersion: AttackDispersion,
    pub targeting: TargetingTurret,
    pub projectile_spawn_offset: SpawnOffset,
    pub rotation_speed: RotationSpeed,
    pub attack_delay: AttackDelay,
    pub idle_rotation: IdleRotation,
    pub transform: Transform,
}

/// `bundle` is a new pulse blaster standing at `translation`.
pub open spec fn pulse_blaster_at(bundle: PulseBlasterBundle, translation: Vec3) -> bool {
    &&& bundle.marker == Turret(TurretType::PulseBlaster)
    &&& bundle.attack_dispersion == AttackDispersion(FRAC_PI_16)
    &&& bundle.targeting == (TargetingTurret {
        targeting_radius: Some(200_000_000_000i64),
        rotation: 0,
        has_target: false,
    })
    &&& bundle.projectile_spawn_offset == SpawnOffset(Vec3 { x: 0, y: 25_000_000_000, z: 0 })
    &&& bundle.rotation_speed == RotationSpeed(FRAC_PI_2)
    &&& timer_fresh(bundle.attack_delay.0, 200_000_000, true)
    &&& bundle.idle_rotation.wf()
    &&& timer_fresh(bundle.idle_rotation.idle_timer, 3_000_000_000, false)
    &&& timer_fresh(bundle.idle_rotation.rotation_timer, 2_000_000_000, true)
    &&& !bundle.idle_rotation.is_idle
    &&& bundle.idle_rotation.target_angle == 0
    &&& bundle.transform == (Transform { translation, rotation: 0, scale: SCALE })
}

impl PulseBlasterBundle {
    /// A new pulse blaster standing at `translation`.
    pub fn at(translation: Vec3) -> (bundle: PulseBlasterBundle)
        ensures
            pulse_blaster_at(bundle, translation),
    {
        PulseBlasterBundle {
            marker: Turret(TurretType::PulseBlaster),
            type_marker: ProjectileTurret,
            attack_dispersion: AttackDispersion(FRAC_PI_16),
            targeting: TargetingTurret {
                targeting_radius: Some(200_000_000_000),
                rotation: 0,
                has_target: false,
            },
            projectile_spawn_offset: SpawnOffset(Vec3 { x: 0, y: ARROW_SIZE / 2, z: 0 }),
            rotation_speed: RotationSpeed(FRAC_PI_2),
            attack_delay: AttackDelay::every(200_000_000),
            idle_rotation: IdleRotation::default(),
            transform: Transform::from_translation(translation),
        }
    }
}

impl Default for PulseBlasterBundle {
    /// A new pulse blaster at the origin.
    fn default() -> (bundle: PulseBlasterBundle)
        ensures
            pulse_blaster_at(bundle, Vec3 { x: 0, y: 0, z: 0 }),
    {
        PulseBlasterBundle::at(Vec3::zero())
    }
}

} // verus!
