//! The per-frame rules, one entity at a time. The rules here drive the plain
//! records: bullets that fly at a set velocity and turrets that turn and
//! shoot. The rules of the turret archetypes are under [`turrets`].

pub mod turrets;

use crate::angle::{angle_diff, magnitude, rotation_step, turned, wrapped, ROTATION_EPSILON};
use crate::components::{
    AttackDelay, Movable, ProjectileTurret, RotationSpeed, TargetingRadius, Turret, Velocity,
};
use crate::math::{
    closer_than, is_closer_than, is_within_radius, rotated, translated, within_radius, Direction,
    Transform, Vec2, Vec3,
};
use crate::systems::turrets::{
    diff_to_bearing, facing_heading, is_outside_window, outside_window, turn_toward, world_coords,
    window_to_world_coords, DEFAULT_ROTATION_SPEED, TARGET_RADIUS,
};
use crate::timer::{tick_just_finished, timer_ticked, timer_times_finished, timer_wf};
use crate::units::{
    add_saturating, distance_in, mul_fixed, saturate, scaled_product, travelled,
};
use crate::WinSize;
use vstd::prelude::*;

verus! {

/// How fast a bullet flies.
pub const PROJECTILE_SPEED: i64 = 200_000_000_000;

/// The collision radius of a bullet.
pub const MOVABLE_RADIUS: i64 = 1_000_000_000;

/// Moves the target's transform to the cursor, if the cursor is in the
/// window; its `z` stays.
pub fn move_target(target: &mut Transform, cursor_position: Option<Vec2>, window_size: Vec2)
    ensures
        match cursor_position {
            Some(cursor) => {
                let pos = world_coords(cursor, window_size);
                *final(target) == (Transform {
                    translation: Vec3 { x: pos.x, y: pos.y, z: old(target).translation.z },
                    ..*old(target)
                })
            },
            None => *final(target) == *old(target),
        },
{
    if let Some(cursor) = cursor_position {
        let pos = window_to_world_coords(cursor, window_size);
        target.translation.x = pos.x;
        target.translation.y = pos.y;
    }
}

/// Where a bullet at `translation` is after `delta_nanos`: each coordinate
/// moves by its part of the velocity times the delta times the bullet speed.
pub open spec fn moved(translation: Vec3, velocity: Velocity, delta_nanos: u64) -> Vec3 {
    Vec3 {
        x: saturate(
            translation.x + saturate(
                scaled_product(
                    saturate(travelled(velocity.x as int, delta_nanos as int)),
                    PROJECTILE_SPEED as int,
                ),
            ),
        ) as i64,
        y: saturate(
            translation.y + saturate(
                scaled_product(
                    saturate(travelled(velocity.y as int, delta_nanos as int)),
                    PROJECTILE_SPEED as int,
                ),
            ),
        ) as i64,
        z: translation.z,
    }
}

/// Whether a bullet at `position` is removed: it touches the target, or it
/// leaves the world by itself and is outside the window by more than the
/// margin.
pub open spec fn bullet_ends(
    position: Vec3,
    movable: Movable,
    target_translation: Vec3,
    win_size: WinSize,
) -> bool {
    closer_than(position, target_translation, MOVABLE_RADIUS + TARGET_RADIUS) || (movable.auto_despawn
        && outside_window(position, win_size))
}

/// Moves one bullet for one frame and says whether it is to be removed.
pub fn movable_system(
    transform: &mut Transform,
    velocity: &Velocity,
    movable: &Movable,
    target_translation: Vec3,
    win_size: &WinSize,
    delta_nanos: u64,
) -> (despawn: bool)
    ensures
        *final(transform) == (Transform {
            translation: moved(old(transform).translation, *velocity, delta_nanos),
            ..*old(transform)
        }),
        despawn == bullet_ends(final(transform).translation, *movable, target_translation, *win_size),
{
    transform.translation.x = add_saturating(
        transform.translation.x,
        mul_fixed(distance_in(velocity.x, delta_nanos), PROJECTILE_SPEED),
    );
    transform.translation.y = add_saturating(
        transform.translation.y,
        mul_fixed(distance_in(velocity.y, delta_nanos), PROJECTILE_SPEED),
    );
    let hit = is_closer_than(transform.translation, target_translation, MOVABLE_RADIUS, TARGET_RADIUS);
    let left = movable.auto_despawn && is_outside_window(transform.translation, win_size);
    hit || left
}

/// Whether a turret at `position` with the given sight has the target in
/// reach: always without a radius, else when the target is no further than
/// the radius.
pub open spec fn in_sight(
    targeting_radius: Option<TargetingRadius>,
    position: Vec3,
    target_position: Vec3,
) -> bool {
    match targeting_radius {
        Some(radius) => within_radius(position, target_position, radius.0 as int),
        None => true,
    }
}

/// What one frame of aiming makes of a turret's transform: out of reach or
/// aligned it stays, else it turns toward the target by one bounded step.
pub open spec fn rotated_toward(
    transform: Transform,
    targeting_radius: Option<TargetingRadius>,
    rotation_speed: Option<RotationSpeed>,
    target_position: Vec3,
    target_bearing: i64,
    delta_nanos: u64,
) -> Transform {
    let diff = angle_diff(transform.rotation as int, facing_heading(target_bearing as int));
    let speed = match rotation_speed {
        Some(s) => s.0,
        None => DEFAULT_ROTATION_SPEED,
    };
    let step = turn_toward(
        transform.rotation as int,
        target_bearing as int,
        speed as int,
        delta_nanos as int,
    );
    if !in_sight(targeting_radius, transform.translation, target_position) || magnitude(diff)
        < ROTATION_EPSILON {
        transform
    } else {
        Transform { rotation: wrapped(transform.rotation + saturate(step)) as i64, ..transform }
    }
}

/// Aims one turret for one frame: it attacks exactly when the target is in
/// reach, and then turns toward it, never past it. `target_bearing` is the
/// angle of the line from the turret to the target, measured from the x axis.
pub fn rotate_turrets(
    turret: &mut Turret,
    turret_transform: &mut Transform,
    targeting_radius: Option<TargetingRadius>,
    rotation_speed: Option<RotationSpeed>,
    target_position: Vec3,
    target_bearing: i64,
    delta_nanos: u64,
)
    ensures
        final(turret).attacking == in_sight(
            targeting_radius,
            old(turret_transform).translation,
            target_position,
        ),
        *final(turret_transform) == rotated_toward(
            *old(turret_transform),
            targeting_radius,
            rotation_speed,
            target_position,
            target_bearing,
            delta_nanos,
        ),
{
    let is_inside_radius = match targeting_radius {
        Some(val) => is_within_radius(turret_transform.translation, target_position, val.0),
        None => true,
    };
    turret.attacking = is_inside_radius;
    if !is_inside_radius {
        return ;
    }
    let current_angle: i64 = turret_transform.rotation;
    let diff: i64 = diff_to_bearing(current_angle, target_bearing);
    let size: i64 = if diff >= 0 { diff } else { -diff };
    if size < ROTATION_EPSILON {
        return ;
    }
    let speed: i64 = match rotation_speed {
        Some(s) => s.0,
        None => DEFAULT_ROTATION_SPEED,
    };
    let step: i64 = rotation_step(diff, distance_in(speed, delta_nanos));
    turret_transform.rotation = turned(current_angle, step);
}

/// What a turret spawns when it shoots a bullet.
#[derive(Clone, Copy, Debug, PartialEq, Eq, Structural)]
pub struct BulletBundle {
    pub transform: Transform,
    pub movable: Movable,
    pub velocity: Velocity,
}

/// The bullet a turret at `transform`, whose heading has the cosine and sine
/// `facing`, shoots: it starts at the turret's position plus the spawn offset
/// turned the turret's way, faces as the turret does, flies the way the
/// turret's up points, and leaves the world by itself.
pub open spec fn bullet(
    transform: Transform,
    facing: Direction,
    projectile_turret: ProjectileTurret,
) -> BulletBundle {
    BulletBundle {
        transform: Transform {
            translation: translated(
                transform.translation,
                rotated(projectile_turret.projectile_spawn_offset, facing),
            ),
            rotation: transform.rotation,
            scale: 1_000_000_000,
        },
        movable: Movable { auto_despawn: true },
        velocity: Velocity { x: saturate(-facing.sin) as i64, y: facing.cos },
    }
}

/// Lets one turret shoot for one frame. A turret that is not attacking does
/// nothing, not even run its delay. One that is runs its delay, and shoots
/// when there is no delay or the delay has just come round. `facing` is the
/// cosine and sine of the turret's heading.
pub fn projectile_turret_attack_system(
    turret: &Turret,
    projectile_turret: &ProjectileTurret,
    transform: &Transform,
    facing: Direction,
    attack_delay: Option<&mut AttackDelay>,
    delta_nanos: u64,
) -> (spawned: Option<BulletBundle>)
    requires
        attack_delay matches Some(d) ==> timer_wf(d.timer),
    ensures
        attack_delay matches Some(d) ==> timer_wf(final(d).timer) && if turret.attacking {
            timer_ticked(d.timer, final(d).timer, delta_nanos as nat)
        } else {
            final(d).timer == d.timer
        },
        spawned == if turret.attacking && match attack_delay {
            Some(d) => timer_times_finished(final(d).timer) > 0,
            None => true,
        } {
            Some(bullet(*transform, facing, *projectile_turret))
        } else {
            None
        },
{
    if !turret.attacking {
        return None;
    }
    let ready = match attack_delay {
        Some(delay) => tick_just_finished(&mut delay.timer, delta_nanos),
        None => true,
    };
    if !ready {
        return None;
    }
    let spawn_translation = transform.translation.plus(
        projectile_turret.projectile_spawn_offset.rotated_by(facing),
    );
    Some(
        BulletBundle {
            transform: Transform {
                translation: spawn_translation,
                rotation: transform.rotation,
                scale: 1_000_000_000,
            },
            movable: Movable { auto_despawn: true },
            velocity: Velocity { x: crate::systems::turrets::negate(facing.sin), y: facing.cos },
        },
    )
}

} // verus!
