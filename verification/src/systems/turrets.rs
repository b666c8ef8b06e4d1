//! The rules of the turret archetypes, one entity at a time: aiming, idling,
//! firing, the flight and end of projectiles, and the animation of effects.

use crate::angle::{
    angle_diff, bounded_step, lemma_step_never_overshoots, lemma_wrapped_same_direction,
    magnitude, rotation_step, shortest_angle_diff, turned, wrapped, ROTATION_EPSILON,
};
use crate::color::Color;
use crate::components::turrets::{
    AoEAnimation, AoEAttack, AoETurret, AttackDelay, AttackDispersion, ColorAnimation, DecayType,
    Decaying, Explosion, ExplosionToSpawn, Explosive, Homing, IdleRotation, InstantDamage,
    LinearVelocity, Projectile, RadiusAnimation, RotationSpeed, SpawnOffset, Target,
    TargetingTurret, Turret,
};
use crate::entropy::{map_u32_to_range, next_draw, spread};
use crate::math::{
    closer_than, inside_radius, is_closer_than, is_inside_radius, is_within_radius, rotated,
    translated, within_radius, Direction, Transform, Vec2, Vec3,
};
use crate::timer::{
    fraction, fraction_remaining, lemma_tick_keeps_wf, once_timer, tick, tick_just_finished,
    timer_duration, timer_elapsed, timer_finished, timer_fraction, timer_fraction_remaining,
    timer_fresh, timer_paused, timer_repeating, timer_ticked, timer_times_finished, timer_wf,
};
use crate::turret_bundles::{pulse_blaster_at, PulseBlasterBundle};
use crate::units::{
    add_saturating, distance_in, gap, lemma_trunc_div_of_multiple, mul_fixed, saturate,
    saturate_i128, scaled_product, travelled, trunc_div, FRAC_PI_2, PI, SCALE,
};
use crate::{TurretType, WinSize};
use bevy::time::Timer;
use bevy_prng::ChaCha8Rng;
use vstd::prelude::*;

verus! {

/// How fast a projectile flies when it carries no speed of its own. What a
/// projectile turret fires carries its own, slower speed.
pub const PROJECTILE_SPEED: i64 = 300_000_000_000;

/// The collision radius of the target.
pub const TARGET_RADIUS: i64 = 20_000_000_000;

/// How far past the edge of the window a projectile may fly before it is
/// removed.
pub const DESPAWN_MARGIN: i64 = 200_000_000_000;

/// How fast a turret turns when it carries no speed of its own: half a turn a
/// second.
pub const DEFAULT_ROTATION_SPEED: i64 = PI;

/// The width of the arc, centred on the current heading, from which an idle
/// turret picks its next heading.
pub const MAX_RANDOM_ROTATION_ANGLE: i64 = FRAC_PI_2;

/// A cursor position in the window, origin top left and y down, as a point
/// of the world, origin at the centre and y up.
pub open spec fn world_coords(cursor_pos: Vec2, window_size: Vec2) -> Vec3 {
    Vec3 {
        x: saturate(cursor_pos.x - trunc_div(window_size.x as int, 2)) as i64,
        y: saturate(trunc_div(window_size.y as int, 2) - cursor_pos.y) as i64,
        z: 0,
    }
}

/// Converts a cursor position in the window to a point of the world. Half
/// the window size rounds toward zero.
pub fn window_to_world_coords(cursor_pos: Vec2, window_size: Vec2) -> (pos: Vec3)
    ensures
        pos == world_coords(cursor_pos, window_size),
{
    Vec3 {
        x: saturate_i128(cursor_pos.x as i128 - (window_size.x / 2) as i128),
        y: saturate_i128((window_size.y / 2) as i128 - cursor_pos.y as i128),
        z: 0,
    }
}

/// Moves the target to the cursor, if the cursor is in the window; its `z`
/// stays.
pub fn move_target(
    transform: &mut Transform,
    target: &mut Target,
    cursor_position: Option<Vec2>,
    window_size: Vec2,
)
    ensures
        match cursor_position {
            Some(cursor) => {
                let pos = world_coords(cursor, window_size);
                &&& final(target).pos == pos
                &&& final(transform).translation == (Vec3 {
                    x: pos.x,
                    y: pos.y,
                    z: old(transform).translation.z,
                })
                &&& final(transform).rotation == old(transform).rotation
                &&& final(transform).scale == old(transform).scale
            },
            None => *final(target) == *old(target) && *final(transform) == *old(transform),
        },
{
    if let Some(cursor) = cursor_position {
        let pos = window_to_world_coords(cursor, window_size);
        target.pos = pos;
        transform.translation.x = pos.x;
        transform.translation.y = pos.y;
    }
}

/// The heading that faces along `bearing`, the angle of the line to the
/// target measured from the x axis: a quarter turn less, since heading zero
/// points up.
pub open spec fn facing_heading(bearing: int) -> int {
    bearing - FRAC_PI_2
}

/// The rotation a turret or projectile with heading `rotation` makes in one
/// frame toward `bearing` at `speed`.
pub open spec fn turn_toward(rotation: int, bearing: int, speed: int, delta_nanos: int) -> int {
    bounded_step(
        angle_diff(rotation, facing_heading(bearing)),
        saturate(travelled(speed, delta_nanos)),
    )
}

/// Whether a turret at `position` that sees `targeting_radius` far has the
/// target in reach: always without a radius, else when the target is no
/// further than the radius.
pub open spec fn target_in_reach(
    targeting_radius: Option<i64>,
    position: Vec3,
    target_position: Vec3,
) -> bool {
    match targeting_radius {
        Some(radius) => within_radius(position, target_position, radius as int),
        None => true,
    }
}

/// What one frame of aiming makes of a turret. Out of reach it loses its
/// target and does not turn. In reach it has its target, and unless it is
/// aligned to within [`ROTATION_EPSILON`] it turns by one bounded step.
pub open spec fn aimed(
    turret: TargetingTurret,
    transform: Transform,
    rotation_speed: Option<RotationSpeed>,
    target_position: Vec3,
    target_bearing: i64,
    delta_nanos: u64,
) -> (TargetingTurret, Transform) {
    let in_reach = target_in_reach(
        turret.targeting_radius,
        transform.translation,
        target_position,
    );
    let diff = angle_diff(transform.rotation as int, facing_heading(target_bearing as int));
    let speed = match rotation_speed {
        Some(s) => s.0,
        None => DEFAULT_ROTATION_SPEED,
    };
    let step = turn_toward(
        transform.rotation as int,
        target_bearing as int,
        speed as int,
        delta_nanos as int,
    );
    if !in_reach {
        (TargetingTurret { has_target: false, ..turret }, transform)
    } else if magnitude(diff) < ROTATION_EPSILON {
        (TargetingTurret { has_target: true, ..turret }, transform)
    } else {
        (
            TargetingTurret {
                has_target: true,
                rotation: saturate(transform.rotation + saturate(step)) as i64,
                ..turret
            },
            Transform { rotation: wrapped(transform.rotation + saturate(step)) as i64, ..transform },
        )
    }
}

/// The shortest rotation from `rotation` to the heading that faces along
/// `bearing`.
pub fn diff_to_bearing(rotation: i64, bearing: i64) -> (diff: i64)
    ensures
        diff == angle_diff(rotation as int, facing_heading(bearing as int)),
        -PI < diff <= PI,
{
    let desired: i64 = turned(bearing, -FRAC_PI_2);
    proof {
        lemma_wrapped_same_direction(bearing - FRAC_PI_2, rotation as int);
    }
    shortest_angle_diff(rotation, desired)
}

/// Aims one turret for one frame: decides whether the target is in reach and
/// turns the turret toward it, never past it. `target_bearing` is the angle
/// of the line from the turret to the target, measured from the x axis.
pub fn turret_targeting_system(
    turret: &mut TargetingTurret,
    turret_transform: &mut Transform,
    rotation_speed: Option<RotationSpeed>,
    target_position: Vec3,
    target_bearing: i64,
    delta_nanos: u64,
)
    ensures
        (*final(turret), *final(turret_transform)) == aimed(
            *old(turret),
            *old(turret_transform),
            rotation_speed,
            target_position,
            target_bearing,
            delta_nanos,
        ),
        final(turret).has_target == target_in_reach(
            old(turret).targeting_radius,
            old(turret_transform).translation,
            target_position,
        ),
{
    let is_inside_radius = match turret.targeting_radius {
        Some(radius) => is_within_radius(turret_transform.translation, target_position, radius),
        None => true,
    };
    turret.has_target = is_inside_radius;
    if !is_inside_radius {
        return ;
    }
    let current_angle: i64 = turret_transform.rotation;
    let diff: i64 = diff_to_bearing(current_angle, target_bearing);
    let size: i64 = if diff >= 0 { diff } else { -diff };
    if size < ROTATION_EPSILON {
        return ;
    }
    let speed: i64 = match rotation_speed {
        Some(s) => s.0,
        None => DEFAULT_ROTATION_SPEED,
    };
    let step: i64 = rotation_step(diff, distance_in(speed, delta_nanos));
    turret_transform.rotation = turned(current_angle, step);
    turret.rotation = add_saturating(current_angle, step);
}

/// What one frame of watching for idleness makes of a turret. With a target
/// the idle timer starts over; without one it runs. In the frame in which it
/// runs out the turret takes the heading it last aimed at as the heading to
/// hold, and it is idle for as long as the timer stays finished.
pub open spec fn idle_flagged(
    before: IdleRotation,
    after: IdleRotation,
    turret: TargetingTurret,
    delta_nanos: u64,
) -> bool {
    &&& after.rotation_timer == before.rotation_timer
    &&& if turret.has_target {
        &&& timer_elapsed(after.idle_timer) == 0
        &&& timer_times_finished(after.idle_timer) == 0
        &&& !timer_finished(after.idle_timer)
        &&& timer_duration(after.idle_timer) == timer_duration(before.idle_timer)
        &&& timer_repeating(after.idle_timer) == timer_repeating(before.idle_timer)
        &&& timer_paused(after.idle_timer) == timer_paused(before.idle_timer)
    } else {
        timer_ticked(before.idle_timer, after.idle_timer, delta_nanos as nat)
    }
    &&& after.target_angle == if timer_times_finished(after.idle_timer) > 0 {
        turret.rotation
    } else {
        before.target_angle
    }
    &&& after.is_idle == timer_finished(after.idle_timer)
}

/// Watches one turret for idleness for one frame.
pub fn flag_idle_turrets(idle_rotation: &mut IdleRotation, turret: &TargetingTurret, delta_nanos: u64)
    requires
        old(idle_rotation).wf(),
    ensures
        final(idle_rotation).wf(),
        idle_flagged(*old(idle_rotation), *final(idle_rotation), *turret, delta_nanos),
{
    if turret.has_target {
        idle_rotation.idle_timer.reset();
    } else {
        tick(&mut idle_rotation.idle_timer, delta_nanos);
        proof {
            lemma_tick_keeps_wf(
                old(idle_rotation).idle_timer,
                idle_rotation.idle_timer,
                delta_nanos as nat,
            );
        }
    }
    if idle_rotation.idle_timer.just_finished() {
        idle_rotation.target_angle = turret.rotation;
    }
    idle_rotation.is_idle = idle_rotation.idle_timer.finished();
}

/// A turret without a target goes idle in the frame in which its idle timer,
/// a running one-shot timer, has counted its whole interval, and takes over
/// the heading it last aimed at in that frame.
pub proof fn lemma_idle_when_threshold_reached(
    before: IdleRotation,
    after: IdleRotation,
    turret: TargetingTurret,
    delta_nanos: u64,
)
    requires
        idle_flagged(before, after, turret, delta_nanos),
        !turret.has_target,
        !timer_repeating(before.idle_timer),
        !timer_paused(before.idle_timer),
        timer_elapsed(before.idle_timer) + delta_nanos >= timer_duration(before.idle_timer),
    ensures
        after.is_idle,
        !timer_finished(before.idle_timer) ==> after.target_angle == turret.rotation,
        timer_finished(before.idle_timer) ==> after.target_angle == before.target_angle,
{
}

/// Before its idle timer has counted its whole interval a turret is not idle.
pub proof fn lemma_not_idle_before_threshold(
    before: IdleRotation,
    after: IdleRotation,
    turret: TargetingTurret,
    delta_nanos: u64,
)
    requires
        idle_flagged(before, after, turret, delta_nanos),
        !turret.has_target,
        !timer_finished(before.idle_timer),
        !timer_paused(before.idle_timer),
        timer_elapsed(before.idle_timer) + delta_nanos < timer_duration(before.idle_timer),
    ensures
        !after.is_idle,
        timer_elapsed(after.idle_timer) == timer_elapsed(before.idle_timer) + delta_nanos,
{
}

/// An idle turret stays idle, with the heading it holds, for as long as it
/// has no target.
pub proof fn lemma_idle_persists(
    before: IdleRotation,
    after: IdleRotation,
    turret: TargetingTurret,
    delta_nanos: u64,
)
    requires
        idle_flagged(before, after, turret, delta_nanos),
        !turret.has_target,
        before.is_idle == timer_finished(before.idle_timer),
        before.is_idle,
        !timer_repeating(before.idle_timer),
    ensures
        after.is_idle,
        after.target_angle == before.target_angle,
{
}

/// A frame with a target ends idleness and sets the idle timer back to zero,
/// whatever it had counted.
pub proof fn lemma_target_resets_idle(
    before: IdleRotation,
    after: IdleRotation,
    turret: TargetingTurret,
    delta_nanos: u64,
)
    requires
        idle_flagged(before, after, turret, delta_nanos),
        turret.has_target,
    ensures
        !after.is_idle,
        timer_elapsed(after.idle_timer) == 0,
        after.target_angle == before.target_angle,
{
}

/// The heading an idle turret picks to drift to: its current heading moved by
/// a draw mapped onto an arc of [`MAX_RANDOM_ROTATION_ANGLE`] centred on it.
pub open spec fn wander_heading(current: int, draw: int) -> int {
    saturate(
        current + saturate(
            spread(draw, -(MAX_RANDOM_ROTATION_ANGLE / 2) as int, (MAX_RANDOM_ROTATION_ANGLE / 2) as int),
        ),
    )
}

/// Picks the heading an idle turret drifts to next from a raw draw.
pub fn idle_wander_target(current_angle: i64, draw: u32) -> (target_angle: i64)
    ensures
        target_angle == wander_heading(current_angle as int, draw as int),
        gap(target_angle as int, current_angle as int) <= MAX_RANDOM_ROTATION_ANGLE / 2,
{
    let random_angle: i64 = map_u32_to_range(
        draw,
        -(MAX_RANDOM_ROTATION_ANGLE / 2),
        MAX_RANDOM_ROTATION_ANGLE / 2,
    );
    add_saturating(current_angle, random_angle)
}

/// What one frame of idling makes of a turret, given the draw it would make.
/// A turret that is not idle is left alone. An idle one runs its rotation
/// timer; when that comes round it picks a new heading to drift to and does
/// not turn, and otherwise it turns toward the heading it holds at half its
/// rotation speed, never past it, unless it is aligned already.
pub open spec fn idled(
    transform: Transform,
    after_transform: Transform,
    idle: IdleRotation,
    after_idle: IdleRotation,
    rotation_speed: Option<RotationSpeed>,
    delta_nanos: u64,
    draw: u32,
) -> bool {
    let speed = match rotation_speed {
        Some(s) => s.0,
        None => DEFAULT_ROTATION_SPEED,
    };
    let diff = angle_diff(transform.rotation as int, idle.target_angle as int);
    let step = bounded_step(diff, saturate(travelled(trunc_div(speed as int, 2), delta_nanos as int)));
    if !idle.is_idle {
        after_transform == transform && after_idle == idle
    } else {
        &&& after_idle.idle_timer == idle.idle_timer
        &&& after_idle.is_idle
        &&& timer_ticked(idle.rotation_timer, after_idle.rotation_timer, delta_nanos as nat)
        &&& if timer_finished(after_idle.rotation_timer) {
            &&& after_idle.target_angle == wander_heading(transform.rotation as int, draw as int)
            &&& after_transform == transform
        } else if magnitude(diff) < ROTATION_EPSILON {
            &&& after_idle.target_angle == idle.target_angle
            &&& after_transform == transform
        } else {
            &&& after_idle.target_angle == idle.target_angle
            &&& after_transform == (Transform {
                rotation: wrapped(transform.rotation + saturate(step)) as i64,
                ..transform
            })
        }
    }
}

/// Idles one turret for one frame. A draw is taken from `rng` only in a frame
/// in which the rotation timer comes round; in every other frame, and for a
/// turret that is not idle, the stream is left as it was.
pub fn idle_rotation_system(
    transform: &mut Transform,
    idle_rotation: &mut IdleRotation,
    rotation_speed: Option<RotationSpeed>,
    delta_nanos: u64,
    rng: &mut ChaCha8Rng,
)
    requires
        old(idle_rotation).wf(),
    ensures
        final(idle_rotation).wf(),
        exists|draw: u32|
            idled(
                *old(transform),
                *final(transform),
                *old(idle_rotation),
                *final(idle_rotation),
                rotation_speed,
                delta_nanos,
                draw,
            ),
        !old(idle_rotation).is_idle || !timer_finished(final(idle_rotation).rotation_timer)
            ==> *final(rng) == *old(rng),
{
    if !idle_rotation.is_idle {
        assert(idled(
            *old(transform),
            *transform,
            *old(idle_rotation),
            *idle_rotation,
            rotation_speed,
            delta_nanos,
            0,
        ));
        return ;
    }
    let current_angle: i64 = transform.rotation;
    tick(&mut idle_rotation.rotation_timer, delta_nanos);
    proof {
        lemma_tick_keeps_wf(
            old(idle_rotation).rotation_timer,
            idle_rotation.rotation_timer,
            delta_nanos as nat,
        );
    }
    if idle_rotation.rotation_timer.finished() {
        let draw: u32 = next_draw(rng);
        idle_rotation.target_angle = idle_wander_target(current_angle, draw);
        assert(idled(
            *old(transform),
            *transform,
            *old(idle_rotation),
            *idle_rotation,
            rotation_speed,
            delta_nanos,
            draw,
        ));
        return ;
    }
    let diff: i64 = shortest_angle_diff(current_angle, idle_rotation.target_angle);
    let size: i64 = if diff >= 0 { diff } else { -diff };
    if size >= ROTATION_EPSILON {
        let speed: i64 = match rotation_speed {
            Some(s) => s.0,
            None => DEFAULT_ROTATION_SPEED,
        };
        let step: i64 = rotation_step(diff, distance_in(speed / 2, delta_nanos));
        transform.rotation = turned(current_angle, step);
    }
    assert(idled(
        *old(transform),
        *transform,
        *old(idle_rotation),
        *idle_rotation,
        rotation_speed,
        delta_nanos,
        0,
    ));
}

/// What a projectile turret spawns when it fires.
#[derive(Clone, Copy, Debug, PartialEq, Eq, Structural)]
pub struct ProjectileBundle {
    pub projectile: Projectile,
    pub damage: InstantDamage,
    pub velocity: LinearVelocity,
    pub transform: Transform,
}

/// `x` with its sign turned, held to 64 bits.
pub open spec fn negated(x: int) -> int {
    saturate(-x)
}

/// The heading of a shot from a turret with heading `rotation`: the turret's
/// own without dispersion, else turned by a draw mapped onto the arc from
/// minus to plus the dispersion.
pub open spec fn shot_heading(rotation: int, dispersion: Option<AttackDispersion>, draw: int) -> int {
    match dispersion {
        Some(d) => wrapped(rotation + saturate(spread(draw, negated(d.0 as int), d.0 as int))),
        None => rotation,
    }
}

/// The projectile a turret at `transform`, whose heading has the cosine and
/// sine `facing`, fires on the draw `draw`. It starts at the turret's
/// position plus the spawn offset turned the turret's way, flies along the
/// shot heading, leaves the world by itself, and carries one point of damage.
pub open spec fn shot(
    transform: Transform,
    facing: Direction,
    spawn_offset: Option<SpawnOffset>,
    dispersion: Option<AttackDispersion>,
    draw: u32,
) -> ProjectileBundle {
    let offset = match spawn_offset {
        Some(off) => off.0,
        None => Vec3 { x: 0, y: 0, z: 0 },
    };
    ProjectileBundle {
        projectile: Projectile { auto_despawn: true, radius: SCALE },
        damage: InstantDamage(SCALE),
        velocity: LinearVelocity(200_000_000_000),
        transform: Transform {
            translation: translated(transform.translation, rotated(offset, facing)),
            rotation: shot_heading(transform.rotation as int, dispersion, draw as int) as i64,
            scale: SCALE,
        },
    }
}

/// Turns the sign of `x`; the one value without a positive twin goes to the
/// largest value.
pub fn negate(x: i64) -> (r: i64)
    ensures
        r == negated(x as int),
{
    if x == i64::MIN {
        i64::MAX
    } else {
        -x
    }
}

/// Builds the projectile that a turret fires on the draw `draw`. The draw is
/// looked at only where there is dispersion.
pub fn fire_projectile(
    turret_transform: &Transform,
    facing: Direction,
    spawn_offset: Option<SpawnOffset>,
    attack_dispersion: Option<AttackDispersion>,
    draw: u32,
) -> (bundle: ProjectileBundle)
    ensures
        bundle == shot(*turret_transform, facing, spawn_offset, attack_dispersion, draw),
{
    let direction: i64 = match attack_dispersion {
        Some(dispersion) => {
            let random_angle: i64 = map_u32_to_range(draw, negate(dispersion.0), dispersion.0);
            turned(turret_transform.rotation, random_angle)
        },
        None => turret_transform.rotation,
    };
    let local: Vec3 = match spawn_offset {
        Some(off) => off.0,
        None => Vec3::zero(),
    };
    let offset: Vec3 = local.rotated_by(facing);
    let spawn_translation: Vec3 = turret_transform.translation.plus(offset);
    ProjectileBundle {
        projectile: Projectile { auto_despawn: true, radius: SCALE },
        damage: InstantDamage(SCALE),
        velocity: LinearVelocity(200_000_000_000),
        transform: Transform { translation: spawn_translation, rotation: direction, scale: SCALE },
    }
}

/// Runs a turret's attack delay for one frame and says whether the turret
/// may fire: always without a delay, else when the delay has just come
/// round.
pub fn attack_ready(attack_delay: Option<&mut AttackDelay>, delta_nanos: u64) -> (ready: bool)
    requires
        attack_delay matches Some(d) ==> timer_wf(d.0),
    ensures
        match attack_delay {
            Some(d) => {
                &&& timer_ticked(d.0, final(d).0, delta_nanos as nat)
                &&& timer_wf(final(d).0)
                &&& ready == (timer_times_finished(final(d).0) > 0)
            },
            None => ready,
        },
{
    match attack_delay {
        Some(delay) => tick_just_finished(&mut delay.0, delta_nanos),
        None => true,
    }
}

/// Lets one projectile turret attack for one frame. A turret without its
/// target does nothing, not even run its delay. One with its target runs its
/// delay, and fires when there is no delay or the delay has just come round:
/// a one-shot delay lets through one shot, in the frame in which it runs out.
/// `facing` is the cosine and sine of the turret's heading. A draw is taken
/// from `rng` only for a shot with dispersion; a turret that holds its fire
/// and a shot without dispersion leave the stream as it was.
pub fn projectile_turret_attack_system(
    turret: &TargetingTurret,
    turret_transform: &Transform,
    facing: Direction,
    attack_delay: Option<&mut AttackDelay>,
    spawn_offset: Option<SpawnOffset>,
    attack_dispersion: Option<AttackDispersion>,
    delta_nanos: u64,
    rng: &mut ChaCha8Rng,
) -> (spawned: Option<ProjectileBundle>)
    requires
        attack_delay matches Some(d) ==> timer_wf(d.0),
    ensures
        attack_delay matches Some(d) ==> timer_wf(final(d).0) && if turret.has_target {
            timer_ticked(d.0, final(d).0, delta_nanos as nat)
        } else {
            final(d).0 == d.0
        },
        spawned is Some <==> turret.has_target && match attack_delay {
            Some(d) => timer_times_finished(final(d).0) > 0,
            None => true,
        },
        spawned matches Some(bundle) ==> exists|draw: u32|
            bundle == shot(*turret_transform, facing, spawn_offset, attack_dispersion, draw),
        spawned is None || attack_dispersion is None ==> *final(rng) == *old(rng),
{
    if !turret.has_target {
        return None;
    }
    if !attack_ready(attack_delay, delta_nanos) {
        return None;
    }
    let draw: u32 = match attack_dispersion {
        Some(_) => next_draw(rng),
        None => 0,
    };
    let bundle = fire_projectile(turret_transform, facing, spawn_offset, attack_dispersion, draw);
    Some(bundle)
}

/// What an area-of-effect turret spawns when it strikes: the strike, the ring
/// that shows it, the colour the ring starts with and where it stands.
pub struct AoEBundle {
    pub attack: AoEAttack,
    pub animation: AoEAnimation,
    pub color: Color,
    pub transform: Transform,
}

/// What a burst request turns into: the burst, its animation, the colour it
/// starts with and where it stands.
pub struct ExplosionBundle {
    pub explosion: Explosion,
    pub animation: AoEAnimation,
    pub color: Color,
    pub transform: Transform,
}

/// An animation that has not run yet, over `nanos` nanoseconds, with the
/// given policies.
pub open spec fn fresh_animation(
    animation: AoEAnimation,
    nanos: nat,
    radius_animation: Option<RadiusAnimation>,
    color_animation: Option<ColorAnimation>,
    despawn_on_end: bool,
) -> bool {
    &&& timer_fresh(animation.timer, nanos, false)
    &&& animation.radius_animation == radius_animation
    &&& animation.color_animation == color_animation
    &&& animation.despawn_on_end == despawn_on_end
}

/// The colours of a strike ring, from first to last.
pub open spec fn strike_colors() -> ColorAnimation {
    ColorAnimation {
        start_color: Color { red: 640_000_000, green: 120_000_000, blue: 360_000_000, alpha: SCALE },
        end_color: Color { red: 480_000_000, green: 130_000_000, blue: 640_000_000, alpha: SCALE },
        alpha_factor: None,
        animate_alpha: true,
    }
}

/// The colours of a burst, from first to last.
pub open spec fn burst_colors() -> ColorAnimation {
    ColorAnimation {
        start_color: Color { red: SCALE, green: SCALE, blue: 500_000_000, alpha: SCALE },
        end_color: Color { red: SCALE, green: 500_000_000, blue: 0, alpha: SCALE },
        alpha_factor: None,
        animate_alpha: true,
    }
}

/// The strike of `turret` standing at `transform`: it reaches as far as the
/// turret's range from where the turret stands, and its ring grows from one
/// unit to the range in half a second, fades, and goes when it is through.
pub open spec fn strike_of(bundle: AoEBundle, turret: AoETurret, transform: Transform) -> bool {
    &&& bundle.attack == (AoEAttack { pos: transform.translation, radius: turret.range })
    &&& fresh_animation(
        bundle.animation,
        500_000_000,
        Some(RadiusAnimation::FromStartToEnd { start_radius: SCALE, end_radius: turret.range }),
        Some(strike_colors()),
        true,
    )
    &&& bundle.color == strike_colors().start_color
    &&& bundle.transform == (Transform {
        translation: Vec3 {
            x: transform.translation.x,
            y: transform.translation.y,
            z: 99_000_000_000,
        },
        rotation: 0,
        scale: SCALE,
    })
}

/// The burst that `request` asks for: of the radius asked for, where it was
/// asked for, growing by its own size each second for one second while it
/// fades, and gone when that second is through.
pub open spec fn burst_of(bundle: ExplosionBundle, request: ExplosionToSpawn) -> bool {
    &&& bundle.explosion == (Explosion { radius: request.radius, pos: request.pos })
    &&& fresh_animation(
        bundle.animation,
        1_000_000_000,
        Some(RadiusAnimation::FromBaseRadius { grow_speed: SCALE }),
        Some(burst_colors()),
        true,
    )
    &&& bundle.color == (Color { red: SCALE, green: SCALE, blue: 0, alpha: SCALE })
    &&& bundle.transform == (Transform {
        translation: Vec3 { x: request.pos.x, y: request.pos.y, z: 100_000_000_000 },
        rotation: 0,
        scale: SCALE,
    })
}

/// Whether an area-of-effect turret at `position` strikes once its delay lets
/// it: always if it is set to, else when the target is nearer than its range.
pub open spec fn strikes(turret: AoETurret, position: Vec3, target: Target) -> bool {
    turret.always_attacking || inside_radius(position, target.pos, turret.range as int)
}

/// Lets one area-of-effect turret attack for one frame. The turret runs its
/// delay whether or not the target is near; it strikes when there is no delay
/// or the delay has just come round, and the turret either always attacks or
/// has the target inside its range.
pub fn aoe_turret_attack_system(
    turret: &AoETurret,
    transform: &Transform,
    attack_delay: Option<&mut AttackDelay>,
    target: &Target,
    delta_nanos: u64,
) -> (spawned: Option<AoEBundle>)
    requires
        attack_delay matches Some(d) ==> timer_wf(d.0),
    ensures
        attack_delay matches Some(d) ==> timer_wf(final(d).0) && timer_ticked(
            d.0,
            final(d).0,
            delta_nanos as nat,
        ),
        spawned is Some <==> strikes(*turret, transform.translation, *target) && match attack_delay {
            Some(d) => timer_times_finished(final(d).0) > 0,
            None => true,
        },
        spawned matches Some(bundle) ==> strike_of(bundle, *turret, *transform),
{
    if !attack_ready(attack_delay, delta_nanos) {
        return None;
    }
    if !turret.always_attacking {
        if !is_inside_radius(transform.translation, target.pos, turret.range) {
            return None;
        }
    }
    let start_color = Color::srgb(640_000_000, 120_000_000, 360_000_000);
    Some(
        AoEBundle {
            attack: AoEAttack { pos: transform.translation, radius: turret.range },
            animation: AoEAnimation {
                timer: once_timer(500_000_000),
                despawn_on_end: true,
                radius_animation: Some(
                    RadiusAnimation::FromStartToEnd { start_radius: SCALE, end_radius: turret.range },
                ),
                color_animation: Some(
                    ColorAnimation {
                        start_color,
                        end_color: Color::srgb(480_000_000, 130_000_000, 640_000_000),
                        alpha_factor: None,
                        animate_alpha: true,
                    },
                ),
            },
            color: start_color,
            transform: Transform::from_translation(transform.translation.with_z(99_000_000_000)),
        },
    )
}

/// Turns one burst request into the burst it asks for. The request itself is
/// spent and is to be removed.
pub fn explosion_spawn_system(explosion_to_spawn: &ExplosionToSpawn) -> (bundle: ExplosionBundle)
    ensures
        burst_of(bundle, *explosion_to_spawn),
{
    ExplosionBundle {
        explosion: Explosion { radius: explosion_to_spawn.radius, pos: explosion_to_spawn.pos },
        animation: AoEAnimation {
            timer: once_timer(1_000_000_000),
            despawn_on_end: true,
            radius_animation: Some(RadiusAnimation::FromBaseRadius { grow_speed: SCALE }),
            color_animation: Some(
                ColorAnimation {
                    start_color: Color::srgb(SCALE, SCALE, 500_000_000),
                    end_color: Color::srgb(SCALE, 500_000_000, 0),
                    alpha_factor: None,
                    animate_alpha: true,
                },
            ),
        },
        color: Color::srgb(SCALE, SCALE, 0),
        transform: Transform::from_translation(explosion_to_spawn.pos.with_z(100_000_000_000)),
    }
}

/// The value a part `t` of the way from `start` to `end`, where `t` is in
/// billionths: `start + (end - start) * t`.
pub open spec fn lerp(start: int, end: int, t: int) -> int {
    start + trunc_div((end - start) * t, SCALE as int)
}

/// The mix of `start` and `end` at the part `t` of the way, where `t` is in
/// billionths: `start * (1 - t) + end * t`.
pub open spec fn blend(start: int, end: int, t: int) -> int {
    trunc_div(start * (SCALE - t) + end * t, SCALE as int)
}

/// The scale of an effect after one frame of its animation, `t` being the
/// elapsed part of the animation after that frame. Growth from the base
/// radius adds the grow speed times the frame's delta, without end; growth
/// from start to end follows the elapsed part.
pub open spec fn animated_scale(
    scale: i64,
    radius_animation: Option<RadiusAnimation>,
    t: int,
    delta_nanos: u64,
) -> int {
    match radius_animation {
        Some(RadiusAnimation::FromBaseRadius { grow_speed }) => saturate(
            scale + saturate(travelled(grow_speed as int, delta_nanos as int)),
        ),
        Some(RadiusAnimation::FromStartToEnd { start_radius, end_radius }) => saturate(
            lerp(start_radius as int, end_radius as int, t),
        ),
        None => scale as int,
    }
}

/// The colour of an effect at the elapsed part `t` of its animation: each
/// channel the mix of its first and last value, the opacity either the
/// material's own or, if it is animated, its factor (one by default) times
/// the part still to come.
pub open spec fn animated_color(animation: ColorAnimation, material: Color, t: int) -> Color {
    let factor = match animation.alpha_factor {
        Some(f) => f,
        None => SCALE,
    };
    Color {
        red: saturate(blend(animation.start_color.red as int, animation.end_color.red as int, t)) as i64,
        green: saturate(
            blend(animation.start_color.green as int, animation.end_color.green as int, t),
        ) as i64,
        blue: saturate(
            blend(animation.start_color.blue as int, animation.end_color.blue as int, t),
        ) as i64,
        alpha: if animation.animate_alpha {
            saturate(scaled_product(factor as int, SCALE - t)) as i64
        } else {
            material.alpha
        },
    }
}

/// Interpolates from `start` to `end` at the part `t`.
pub fn lerp_fixed(start: i64, end: i64, t: i64) -> (r: i64)
    requires
        0 <= t <= SCALE,
    ensures
        r == saturate(lerp(start as int, end as int, t as int)),
{
    let width: i128 = end as i128 - start as i128;
    assert(-0x1_0000_0000_0000_0000 * 0x4000_0000 <= width * t <= 0x1_0000_0000_0000_0000
        * 0x4000_0000) by (nonlinear_arith)
        requires
            -0x1_0000_0000_0000_0000 <= width <= 0x1_0000_0000_0000_0000,
            0 <= t <= 0x4000_0000,
    ;
    let part: i128 = (width * (t as i128)) / (SCALE as i128);
    saturate_i128(start as i128 + part)
}

/// Mixes `start` and `end` at the part `t`.
pub fn blend_fixed(start: i64, end: i64, t: i64) -> (r: i64)
    requires
        0 <= t <= SCALE,
    ensures
        r == saturate(blend(start as int, end as int, t as int)),
{
    let rest: i128 = (SCALE - t) as i128;
    assert(-0x8000_0000_0000_0000 * 0x4000_0000 <= start * rest <= 0x8000_0000_0000_0000
        * 0x4000_0000) by (nonlinear_arith)
        requires
            -0x8000_0000_0000_0000 <= start <= 0x8000_0000_0000_0000,
            0 <= rest <= 0x4000_0000,
    ;
    assert(-0x8000_0000_0000_0000 * 0x4000_0000 <= end * t <= 0x8000_0000_0000_0000 * 0x4000_0000)
        by (nonlinear_arith)
        requires
            -0x8000_0000_0000_0000 <= end <= 0x8000_0000_0000_0000,
            0 <= t <= 0x4000_0000,
    ;
    let sum: i128 = (start as i128) * rest + (end as i128) * (t as i128);
    saturate_i128(sum / (SCALE as i128))
}

/// What one frame leaves of an effect besides its scale: the colour to give
/// its material, if it has one and its colour is animated, and whether the
/// effect is over and to be removed.
#[derive(Clone, Copy, Debug, PartialEq, Eq, Structural)]
pub struct AnimationFrame {
    pub color: Option<Color>,
    pub despawn: bool,
}

/// Animates one effect for one frame: runs its timer, sets its scale by its
/// radius policy, works out its colour by its colour policy, and says whether
/// it ends. `material` is the colour of the effect's material, `None` if the
/// material is gone.
pub fn aoe_animation_system(
    animation: &mut AoEAnimation,
    animation_transform: &mut Transform,
    material: Option<Color>,
    delta_nanos: u64,
) -> (frame: AnimationFrame)
    requires
        timer_wf(old(animation).timer),
    ensures
        timer_wf(final(animation).timer),
        timer_ticked(old(animation).timer, final(animation).timer, delta_nanos as nat),
        final(animation).radius_animation == old(animation).radius_animation,
        final(animation).color_animation == old(animation).color_animation,
        final(animation).despawn_on_end == old(animation).despawn_on_end,
        *final(animation_transform) == (Transform {
            scale: animated_scale(
                old(animation_transform).scale,
                old(animation).radius_animation,
                timer_fraction(final(animation).timer),
                delta_nanos,
            ) as i64,
            ..*old(animation_transform)
        }),
        frame.color == match (old(animation).color_animation, material) {
            (Some(policy), Some(shown)) => Some(
                animated_color(policy, shown, timer_fraction(final(animation).timer)),
            ),
            _ => None,
        },
        frame.despawn == (old(animation).despawn_on_end && timer_finished(final(animation).timer)),
{
    tick(&mut animation.timer, delta_nanos);
    proof {
        lemma_tick_keeps_wf(old(animation).timer, animation.timer, delta_nanos as nat);
    }
    let t: i64 = fraction(&animation.timer);
    let t_1: i64 = fraction_remaining(&animation.timer);
    match animation.radius_animation {
        Some(RadiusAnimation::FromBaseRadius { grow_speed }) => {
            animation_transform.scale = add_saturating(
                animation_transform.scale,
                distance_in(grow_speed, delta_nanos),
            );
        },
        Some(RadiusAnimation::FromStartToEnd { start_radius, end_radius }) => {
            animation_transform.scale = lerp_fixed(start_radius, end_radius, t);
        },
        None => {},
    }
    let color: Option<Color> = match (animation.color_animation, material) {
        (Some(policy), Some(shown)) => Some(
            Color {
                red: blend_fixed(policy.start_color.red, policy.end_color.red, t),
                green: blend_fixed(policy.start_color.green, policy.end_color.green, t),
                blue: blend_fixed(policy.start_color.blue, policy.end_color.blue, t),
                alpha: if policy.animate_alpha {
                    let factor: i64 = match policy.alpha_factor {
                        Some(f) => f,
                        None => SCALE,
                    };
                    mul_fixed(factor, t_1)
                } else {
                    shown.alpha
                },
            },
        ),
        _ => None,
    };
    AnimationFrame { color, despawn: animation.despawn_on_end && animation.timer.finished() }
}

/// Interpolation starts at the first value and ends at the last, exactly, for
/// a radius as for a colour channel.
pub proof fn lemma_interpolation_ends(start: int, end: int)
    ensures
        lerp(start, end, 0) == start,
        lerp(start, end, SCALE as int) == end,
        blend(start, end, 0) == start,
        blend(start, end, SCALE as int) == end,
{
    lemma_trunc_div_of_multiple(end - start, SCALE as int);
    lemma_trunc_div_of_multiple(start, SCALE as int);
    lemma_trunc_div_of_multiple(end, SCALE as int);
}

/// Half way from `start` to `end` lies their mean, when their difference is
/// even.
pub proof fn lemma_interpolation_midpoint(start: int, width: int)
    ensures
        lerp(start, start + 2 * width, SCALE / 2) == start + width,
{
    assert((2 * width) * (SCALE / 2) == width * SCALE) by (nonlinear_arith);
    lemma_trunc_div_of_multiple(width, SCALE as int);
}

/// The records of a new area-of-effect turret.
pub struct AoETurretBundle {
    pub marker: Turret,
    pub turret: AoETurret,
    pub attack_delay: AttackDelay,
    pub transform: Transform,
}

/// `bundle` is a new cryo generator standing at `translation`: it strikes
/// once a second within 100 units, and only when the target is that near.
pub open spec fn cryo_generator_at(bundle: AoETurretBundle, translation: Vec3) -> bool {
    &&& bundle.marker == Turret(TurretType::CryoGenerator)
    &&& bundle.turret == (AoETurret { range: 100_000_000_000, always_attacking: false })
    &&& timer_fresh(bundle.attack_delay.0, 1_000_000_000, true)
    &&& bundle.transform == (Transform { translation, rotation: 0, scale: SCALE })
}

/// Places a pulse blaster where the cursor is; nothing if the cursor is
/// outside the window.
pub fn spawn_projectile_turret(cursor_position: Option<Vec2>, window_size: Vec2) -> (spawned: Option<
    PulseBlasterBundle,
>)
    ensures
        match cursor_position {
            Some(cursor) => spawned matches Some(bundle) && pulse_blaster_at(
                bundle,
                world_coords(cursor, window_size),
            ),
            None => spawned is None,
        },
{
    match cursor_position {
        Some(cursor_pos) => {
            let pos = window_to_world_coords(cursor_pos, window_size);
            Some(PulseBlasterBundle::at(pos))
        },
        None => None,
    }
}

/// Places a cryo generator where the cursor is; nothing if the cursor is
/// outside the window.
pub fn spawn_aoe_turret(cursor_position: Option<Vec2>, window_size: Vec2) -> (spawned: Option<
    AoETurretBundle,
>)
    ensures
        match cursor_position {
            Some(cursor) => spawned matches Some(bundle) && cryo_generator_at(
                bundle,
                world_coords(cursor, window_size),
            ),
            None => spawned is None,
        },
{
    match cursor_position {
        Some(cursor_pos) => {
            let pos = window_to_world_coords(cursor_pos, window_size);
            Some(
                AoETurretBundle {
                    marker: Turret(TurretType::CryoGenerator),
                    turret: AoETurret { range: 100_000_000_000, always_attacking: false },
                    attack_delay: AttackDelay::every(1_000_000_000),
                    transform: Transform::from_translation(pos),
                },
            )
        },
        None => None,
    }
}

/// How one frame ends for a projectile: whether it is removed, and the burst
/// it asks for if it hit and was explosive.
#[derive(Clone, Copy, Debug, PartialEq, Eq, Structural)]
pub struct ProjectileOutcome {
    pub despawn: bool,
    pub explosion: Option<ExplosionToSpawn>,
}

/// The angle along which a projectile with heading `rotation` flies, measured
/// from the x axis: a quarter turn more than its heading, in `(-PI, PI]`.
pub open spec fn flight_bearing(rotation: int) -> int {
    wrapped(rotation + FRAC_PI_2)
}

/// Where a projectile at `translation` is after flying for `delta_nanos`
/// along `heading` at `speed`: each coordinate moves by the speed's part in
/// that direction times the delta. `z` stays.
pub open spec fn advanced(translation: Vec3, heading: Direction, speed: i64, delta_nanos: u64) -> Vec3 {
    Vec3 {
        x: saturate(
            translation.x + saturate(
                travelled(saturate(scaled_product(heading.cos as int, speed as int)), delta_nanos as int),
            ),
        ) as i64,
        y: saturate(
            translation.y + saturate(
                travelled(saturate(scaled_product(heading.sin as int, speed as int)), delta_nanos as int),
            ),
        ) as i64,
        z: translation.z,
    }
}

/// Whether `position` is further outside the window than the margin allows,
/// on any side. The window is centred on the origin.
pub open spec fn outside_window(position: Vec3, win_size: WinSize) -> bool {
    let half_width = trunc_div(win_size.width as int, 2);
    let half_height = trunc_div(win_size.height as int, 2);
    ||| position.y > half_height + DESPAWN_MARGIN
    ||| position.y < -half_height - DESPAWN_MARGIN
    ||| position.x > half_width + DESPAWN_MARGIN
    ||| position.x < -half_width - DESPAWN_MARGIN
}

/// Whether a projectile of collision radius `radius` at `position` touches
/// the target: their distance in space is less than the sum of their radii.
pub open spec fn hits_target(position: Vec3, radius: i64, target: Target) -> bool {
    closer_than(position, target.pos, radius + TARGET_RADIUS)
}

/// How one frame ends for a projectile that has flown to `position`. One that
/// touches the target is removed and, if explosive, asks for a burst of its
/// damage and radius there. One that does not is removed only if it leaves
/// the world by itself and is outside the window by more than the margin.
pub open spec fn resolved(
    position: Vec3,
    projectile: Projectile,
    explosive: Option<Explosive>,
    target: Target,
    win_size: WinSize,
) -> ProjectileOutcome {
    if hits_target(position, projectile.radius, target) {
        ProjectileOutcome {
            despawn: true,
            explosion: match explosive {
                Some(e) => Some(ExplosionToSpawn { damage: e.damage, radius: e.radius, pos: position }),
                None => None,
            },
        }
    } else {
        ProjectileOutcome {
            despawn: projectile.auto_despawn && outside_window(position, win_size),
            explosion: None,
        }
    }
}

/// The speed a projectile flies at: its own if it carries one, else
/// [`PROJECTILE_SPEED`].
pub open spec fn flight_speed(velocity: Option<LinearVelocity>) -> i64 {
    match velocity {
        Some(v) => v.0,
        None => PROJECTILE_SPEED,
    }
}

/// The angle whose cosine and sine `projectile_system` is to be given for a
/// projectile with heading `rotation`.
pub fn flight_angle(rotation: i64) -> (bearing: i64)
    ensures
        bearing == flight_bearing(rotation as int),
        -PI < bearing <= PI,
{
    turned(rotation, FRAC_PI_2)
}

/// Whether `position` is outside the window by more than the margin.
pub fn is_outside_window(position: Vec3, win_size: &WinSize) -> (out: bool)
    ensures
        out == outside_window(position, *win_size),
{
    let half_width: i128 = (win_size.width / 2) as i128;
    let half_height: i128 = (win_size.height / 2) as i128;
    let margin: i128 = DESPAWN_MARGIN as i128;
    position.y as i128 > half_height + margin || (position.y as i128) < -half_height - margin
        || position.x as i128 > half_width + margin || (position.x as i128) < -half_width - margin
}

/// Moves one projectile for one frame and decides how the frame ends for it.
/// `heading` is the cosine and sine of the projectile's [`flight_angle`].
pub fn projectile_system(
    transform: &mut Transform,
    projectile: &Projectile,
    velocity: Option<LinearVelocity>,
    explosive: Option<Explosive>,
    heading: Direction,
    target: &Target,
    win_size: &WinSize,
    delta_nanos: u64,
) -> (outcome: ProjectileOutcome)
    ensures
        *final(transform) == (Transform {
            translation: advanced(
                old(transform).translation,
                heading,
                flight_speed(velocity),
                delta_nanos,
            ),
            ..*old(transform)
        }),
        outcome == resolved(final(transform).translation, *projectile, explosive, *target, *win_size),
        hits_target(final(transform).translation, projectile.radius, *target) ==> outcome.despawn,
{
    let speed: i64 = match velocity {
        Some(v) => v.0,
        None => PROJECTILE_SPEED,
    };
    let velocity_x: i64 = mul_fixed(heading.cos, speed);
    let velocity_y: i64 = mul_fixed(heading.sin, speed);
    transform.translation.x = add_saturating(
        transform.translation.x,
        distance_in(velocity_x, delta_nanos),
    );
    transform.translation.y = add_saturating(
        transform.translation.y,
        distance_in(velocity_y, delta_nanos),
    );
    if is_closer_than(transform.translation, target.pos, projectile.radius, TARGET_RADIUS) {
        let explosion = match explosive {
            Some(e) => Some(
                ExplosionToSpawn { damage: e.damage, radius: e.radius, pos: transform.translation },
            ),
            None => None,
        };
        return ProjectileOutcome { despawn: true, explosion };
    }
    let despawn = projectile.auto_despawn && is_outside_window(transform.translation, win_size);
    ProjectileOutcome { despawn, explosion: None }
}

/// What one frame of decay leaves of a projectile: the opacity to show it
/// with, if it fades, and whether it is to be removed.
#[derive(Clone, Copy, Debug, PartialEq, Eq, Structural)]
pub struct DecayFrame {
    pub alpha: Option<i64>,
    pub despawn: bool,
}

/// Whether a decaying projectile is removed after a frame: never before its
/// timer reports finished; then always if running out of time is what removes
/// it, and if it only fades, only if it also leaves the world by itself.
pub open spec fn decay_ends(decay_type: DecayType, auto_despawn: bool, finished: bool) -> bool {
    finished && (decay_type == DecayType::Despawn || auto_despawn)
}

/// Lets one projectile decay for one frame. Its timer runs; one that fades is
/// shown with the part of its time still to come as its opacity; one that
/// despawns is removed exactly when its timer reports finished, and one that
/// fades is removed then only if it leaves the world by itself.
pub fn decaying_projectile_system(
    decaying: &mut Decaying,
    projectile: &Projectile,
    delta_nanos: u64,
) -> (frame: DecayFrame)
    requires
        timer_wf(old(decaying).decay_timer),
    ensures
        timer_wf(final(decaying).decay_timer),
        timer_ticked(old(decaying).decay_timer, final(decaying).decay_timer, delta_nanos as nat),
        final(decaying).decay_type == old(decaying).decay_type,
        frame.alpha == if old(decaying).decay_type == DecayType::Transparency {
            Some(timer_fraction_remaining(final(decaying).decay_timer) as i64)
        } else {
            None
        },
        frame.despawn == decay_ends(
            old(decaying).decay_type,
            projectile.auto_despawn,
            timer_finished(final(decaying).decay_timer),
        ),
        old(decaying).decay_type == DecayType::Despawn ==> frame.despawn == timer_finished(
            final(decaying).decay_timer,
        ),
{
    tick(&mut decaying.decay_timer, delta_nanos);
    proof {
        lemma_tick_keeps_wf(old(decaying).decay_timer, decaying.decay_timer, delta_nanos as nat);
    }
    let finished = decaying.decay_timer.finished();
    match decaying.decay_type {
        DecayType::Transparency => DecayFrame {
            alpha: Some(fraction_remaining(&decaying.decay_timer)),
            despawn: finished && projectile.auto_despawn,
        },
        DecayType::Despawn => DecayFrame { alpha: None, despawn: finished },
    }
}

/// The opacity of a fading projectile never rises from one frame to the next
/// and stays between nothing and full.
pub proof fn lemma_fade_never_brightens(before: Timer, after: Timer, delta: nat)
    requires
        timer_wf(before),
        timer_ticked(before, after, delta),
        !timer_repeating(before),
    ensures
        0 <= timer_fraction_remaining(after) <= timer_fraction_remaining(before) <= SCALE,
{
    let interval = timer_duration(before) as int;
    let e0 = timer_elapsed(before) as int;
    let e1 = timer_elapsed(after) as int;
    if interval > 0 {
        assert(e0 * SCALE <= e1 * SCALE <= interval * SCALE) by (nonlinear_arith)
            requires
                0 <= e0 <= e1 <= interval,
        ;
        assert(0 <= (e0 * SCALE) / interval <= (e1 * SCALE) / interval <= SCALE)
            by (nonlinear_arith)
            requires
                0 <= e0 * SCALE <= e1 * SCALE <= interval * SCALE,
                interval > 0,
        ;
    }
}

/// A running one-shot timer that finishes in a frame leaves a fading
/// projectile with no opacity at all, and before the timer has counted its
/// whole interval some opacity is left and the projectile stays.
pub proof fn lemma_fade_ends_with_timer(before: Timer, after: Timer, delta: nat)
    requires
        timer_wf(before),
        timer_ticked(before, after, delta),
        !timer_repeating(before),
        !timer_paused(before),
        !timer_finished(before),
    ensures
        timer_finished(after) <==> timer_elapsed(before) + delta >= timer_duration(before),
        timer_finished(after) ==> timer_fraction_remaining(after) == 0,
        !timer_finished(after) ==> timer_fraction_remaining(after) > 0,
{
    let interval = timer_duration(before) as int;
    let e1 = timer_elapsed(after) as int;
    if timer_finished(after) {
        if interval > 0 {
            assert((interval * SCALE) / interval == SCALE) by (nonlinear_arith)
                requires
                    interval > 0,
            ;
        }
    } else {
        assert(e1 * SCALE < interval * SCALE) by (nonlinear_arith)
            requires
                0 <= e1 < interval,
        ;
        assert((e1 * SCALE) / interval < SCALE) by (nonlinear_arith)
            requires
                0 <= e1 * SCALE < interval * SCALE,
                interval > 0,
        ;
    }
}

/// A fading projectile with time left grows dimmer in every frame that is
/// long enough to show: one that lasts at least a billionth of the timer's
/// interval.
pub proof fn lemma_fade_dims(before: Timer, after: Timer, delta: nat)
    requires
        timer_wf(before),
        timer_ticked(before, after, delta),
        !timer_repeating(before),
        !timer_paused(before),
        !timer_finished(before),
        timer_elapsed(before) < timer_duration(before),
        delta * SCALE >= timer_duration(before),
    ensures
        timer_fraction_remaining(after) < timer_fraction_remaining(before),
{
    let interval = timer_duration(before) as int;
    let e0 = timer_elapsed(before) as int;
    let d = delta as int;
    if e0 + d < interval {
        assert((e0 + d) * SCALE == e0 * SCALE + d * SCALE) by (nonlinear_arith);
        assert((e0 * SCALE + d * SCALE) / interval >= (e0 * SCALE) / interval + 1)
            by (nonlinear_arith)
            requires
                d * SCALE >= interval,
                interval > 0,
                e0 >= 0,
        ;
    } else {
        assert((interval * SCALE) / interval == SCALE) by (nonlinear_arith)
            requires
                interval > 0,
        ;
        assert(e0 * SCALE < interval * SCALE) by (nonlinear_arith)
            requires
                0 <= e0 < interval,
        ;
        assert((e0 * SCALE) / interval < SCALE) by (nonlinear_arith)
            requires
                0 <= e0 * SCALE < interval * SCALE,
                interval > 0,
        ;
    }
}

/// What one frame of homing makes of a projectile. It steers only while the
/// target is within its homing distance, and then only if the target is off
/// its course by at least [`ROTATION_EPSILON`] and by no more than its homing
/// angle; it then turns toward the target at its homing speed, never past it.
pub open spec fn homed(
    homing: Homing,
    transform: Transform,
    target: Target,
    target_bearing: i64,
    delta_nanos: u64,
) -> Transform {
    let diff = angle_diff(transform.rotation as int, facing_heading(target_bearing as int));
    let step = turn_toward(
        transform.rotation as int,
        target_bearing as int,
        homing.homing_speed as int,
        delta_nanos as int,
    );
    if !within_radius(transform.translation, target.pos, homing.homing_distance as int) {
        transform
    } else if magnitude(diff) > homing.homing_angle || magnitude(diff) < ROTATION_EPSILON {
        transform
    } else {
        Transform { rotation: wrapped(transform.rotation + saturate(step)) as i64, ..transform }
    }
}

/// Steers one homing projectile for one frame. `target_bearing` is the angle
/// of the line from the projectile to the target, measured from the x axis.
pub fn homing_projectile_system(
    homing: &Homing,
    transform: &mut Transform,
    target: &Target,
    target_bearing: i64,
    delta_nanos: u64,
)
    ensures
        *final(transform) == homed(*homing, *old(transform), *target, target_bearing, delta_nanos),
{
    if !is_within_radius(transform.translation, target.pos, homing.homing_distance) {
        return ;
    }
    let current_angle: i64 = transform.rotation;
    let diff: i64 = diff_to_bearing(current_angle, target_bearing);
    let size: i64 = if diff >= 0 { diff } else { -diff };
    if size > homing.homing_angle || size < ROTATION_EPSILON {
        return ;
    }
    let step: i64 = rotation_step(diff, distance_in(homing.homing_speed, delta_nanos));
    transform.rotation = turned(current_angle, step);
}

/// The time that the first `frames` frames of a run took together.
pub open spec fn run_time(deltas: Seq<u64>, frames: int) -> int
    decreases frames,
{
    if frames <= 0 {
        0
    } else {
        run_time(deltas, frames - 1) + deltas[frames - 1]
    }
}

/// Over a run of frames without a target, starting from a turret whose idle
/// timer, a running one-shot timer, has counted nothing: after each frame the
/// turret is idle exactly if the frames so far took at least the timer's
/// interval together.
pub proof fn lemma_idle_after_run(
    states: Seq<IdleRotation>,
    turrets: Seq<TargetingTurret>,
    deltas: Seq<u64>,
    frames: int,
)
    requires
        states.len() == deltas.len() + 1,
        turrets.len() == deltas.len(),
        1 <= frames <= deltas.len(),
        forall|i: int|
            0 <= i < deltas.len() ==> !(#[trigger] turrets[i]).has_target && idle_flagged(
                states[i],
                states[i + 1],
                turrets[i],
                deltas[i],
            ),
        timer_elapsed(states[0].idle_timer) == 0,
        !timer_finished(states[0].idle_timer),
        !timer_repeating(states[0].idle_timer),
        !timer_paused(states[0].idle_timer),
    ensures
        states[frames].is_idle <==> run_time(deltas, frames) >= timer_duration(states[0].idle_timer),
        !states[frames].is_idle ==> timer_elapsed(states[frames].idle_timer) == run_time(
            deltas,
            frames,
        ),
        timer_duration(states[frames].idle_timer) == timer_duration(states[0].idle_timer),
        !timer_repeating(states[frames].idle_timer),
        !timer_paused(states[frames].idle_timer),
    decreases frames,
{
    let last = frames - 1;
    assert(!turrets[last].has_target && idle_flagged(
        states[last],
        states[last + 1],
        turrets[last],
        deltas[last],
    ));
    lemma_run_time_grows(deltas, last);
    if frames > 1 {
        lemma_idle_after_run(states, turrets, deltas, last);
        assert(states[last].is_idle == timer_finished(states[last].idle_timer)) by {
            let earlier = last - 1;
            assert(!turrets[earlier].has_target && idle_flagged(
                states[earlier],
                states[earlier + 1],
                turrets[earlier],
                deltas[earlier],
            ));
        }
    }
}

/// A run never takes less time than its beginning.
pub proof fn lemma_run_time_grows(deltas: Seq<u64>, frames: int)
    ensures
        0 <= run_time(deltas, frames) <= run_time(deltas, frames + 1),
    decreases frames,
{
    if frames > 0 {
        lemma_run_time_grows(deltas, frames - 1);
    }
}

/// Aiming never turns a turret past its target: with a rotation speed that is
/// not negative, the turret is no further from facing the target after the
/// frame than before it, and it faces the target exactly if the frame was
/// long enough to cover what was left.
pub proof fn lemma_aiming_never_overshoots(
    turret: TargetingTurret,
    transform: Transform,
    rotation_speed: Option<RotationSpeed>,
    target_position: Vec3,
    target_bearing: i64,
    delta_nanos: u64,
)
    requires
        rotation_speed matches Some(s) ==> s.0 >= 0,
    ensures
        ({
            let wanted = facing_heading(target_bearing as int);
            let after = aimed(
                turret,
                transform,
                rotation_speed,
                target_position,
                target_bearing,
                delta_nanos,
            ).1;
            let speed = match rotation_speed {
                Some(s) => s.0,
                None => DEFAULT_ROTATION_SPEED,
            };
            let before_diff = angle_diff(transform.rotation as int, wanted);
            let after_diff = angle_diff(after.rotation as int, wanted);
            &&& magnitude(after_diff) <= magnitude(before_diff)
            &&& magnitude(before_diff) - magnitude(after_diff) <= saturate(
                travelled(speed as int, delta_nanos as int),
            )
            &&& target_in_reach(turret.targeting_radius, transform.translation, target_position)
                && ROTATION_EPSILON <= magnitude(before_diff) <= saturate(
                travelled(speed as int, delta_nanos as int),
            ) ==> after_diff == 0
        }),
{
    let wanted = facing_heading(target_bearing as int);
    let speed = match rotation_speed {
        Some(s) => s.0,
        None => DEFAULT_ROTATION_SPEED,
    };
    let limit = saturate(travelled(speed as int, delta_nanos as int));
    assert(limit >= 0) by {
        assert(speed * delta_nanos >= 0) by (nonlinear_arith)
            requires
                speed >= 0,
                delta_nanos >= 0,
        ;
    }
    lemma_step_never_overshoots(transform.rotation as int, wanted, limit);
    let diff = angle_diff(transform.rotation as int, wanted);
    let step = bounded_step(diff, limit);
    lemma_wrapped_same_direction(transform.rotation + step, wanted);
}

} // verus!
