use bevy::time::{Timer, TimerMode};
use bevy_prng::ChaCha8Rng;
use rand_core::{RngCore, SeedableRng};
use std::time::Duration;
use turret_sim::angle::wrap_angle;
use turret_sim::color::Color;
use turret_sim::components::turrets::{
    AoEAttack, AoETurret, AttackDelay, AttackDispersion, InstantDamage, LinearVelocity, Projectile,
    RadiusAnimation, SpawnOffset, Target, TargetingTurret, Turret,
};
use turret_sim::entropy::map_u32_to_range;
use turret_sim::math::{Direction, Transform, Vec2, Vec3};
use turret_sim::systems::turrets::{
    aoe_turret_attack_system, attack_ready, fire_projectile, negate,
    projectile_turret_attack_system, spawn_aoe_turret, spawn_projectile_turret,
};
use turret_sim::turret_bundles::{PulseBlasterBundle, ARROW_SIZE};
use turret_sim::units::{FRAC_PI_16, FRAC_PI_2, PI, SCALE};
use turret_sim::TurretType;

const SECOND: u64 = 1_000_000_000;

fn units(x: i64) -> i64 {
    x * SCALE
}

fn at(x: i64, y: i64) -> Vec3 {
    Vec3 { x: units(x), y: units(y), z: 0 }
}

fn engaged(has_target: bool) -> TargetingTurret {
    TargetingTurret { targeting_radius: None, rotation: 0, has_target }
}

fn up() -> Direction {
    Direction { cos: SCALE, sin: 0 }
}

#[test]
fn turret_without_target_holds_its_fire_and_its_delay() {
    let mut rng = ChaCha8Rng::seed_from_u64(5);
    let mut delay = AttackDelay::every(SECOND / 5);
    let tf = Transform::from_translation(at(0, 0));
    let shot = projectile_turret_attack_system(
        &engaged(false),
        &tf,
        up(),
        Some(&mut delay),
        None,
        None,
        SECOND,
        &mut rng,
    );
    assert!(shot.is_none());
    assert_eq!(delay.0.elapsed(), Duration::ZERO);
}

#[test]
fn turret_fires_when_its_delay_comes_round() {
    let mut rng = ChaCha8Rng::seed_from_u64(5);
    let mut delay = AttackDelay::every(SECOND / 5);
    let tf = Transform::from_translation(at(0, 0));
    let mut fired = 0;
    for frame in 0..20 {
        let shot = projectile_turret_attack_system(
            &engaged(true),
            &tf,
            up(),
            Some(&mut delay),
            None,
            None,
            SECOND / 20,
            &mut rng,
        );
        // A fifth of a second is four frames of a twentieth.
        assert_eq!(shot.is_some(), frame % 4 == 3);
        if shot.is_some() {
            fired += 1;
        }
    }
    assert_eq!(fired, 5);
}

#[test]
fn turret_without_delay_fires_every_frame() {
    let mut rng = ChaCha8Rng::seed_from_u64(5);
    let tf = Transform::from_translation(at(0, 0));
    for _ in 0..3 {
        let shot =
            projectile_turret_attack_system(&engaged(true), &tf, up(), None, None, None, 0, &mut rng);
        assert!(shot.is_some());
    }
}

#[test]
fn shot_without_dispersion_flies_the_turrets_way_and_draws_nothing() {
    let mut rng = ChaCha8Rng::seed_from_u64(9);
    let mut untouched = ChaCha8Rng::seed_from_u64(9);
    let mut tf = Transform::from_translation(Vec3 { x: units(10), y: units(20), z: units(3) });
    tf.rotation = FRAC_PI_2;
    // Facing a quarter turn left of up: cosine 0, sine 1.
    let facing = Direction { cos: 0, sin: SCALE };
    let shot = projectile_turret_attack_system(
        &engaged(true),
        &tf,
        facing,
        None,
        Some(SpawnOffset(Vec3 { x: 0, y: units(25), z: 0 })),
        None,
        SECOND,
        &mut rng,
    )
    .unwrap();
    assert_eq!(shot.projectile, Projectile { auto_despawn: true, radius: SCALE });
    assert_eq!(shot.damage, InstantDamage(SCALE));
    assert_eq!(shot.velocity, LinearVelocity(units(200)));
    assert_eq!(shot.transform.rotation, FRAC_PI_2);
    assert_eq!(shot.transform.scale, SCALE);
    // The tip of the turret, 25 up in its own frame, points along -x now.
    assert_eq!(shot.transform.translation, Vec3 { x: units(-15), y: units(20), z: units(3) });
    assert_eq!(rng.next_u32(), untouched.next_u32());
}

#[test]
fn shot_with_dispersion_turns_by_one_draw() {
    let mut rng = ChaCha8Rng::seed_from_u64(11);
    let mut twin = ChaCha8Rng::seed_from_u64(11);
    let mut tf = Transform::from_translation(at(0, 0));
    tf.rotation = 100_000_000;
    let shot = projectile_turret_attack_system(
        &engaged(true),
        &tf,
        up(),
        None,
        None,
        Some(AttackDispersion(FRAC_PI_16)),
        SECOND,
        &mut rng,
    )
    .unwrap();
    let draw = twin.next_u32();
    let spread = map_u32_to_range(draw, -FRAC_PI_16, FRAC_PI_16);
    assert_eq!(shot.transform.rotation, 100_000_000 + spread);
    assert_eq!(shot, fire_projectile(&tf, up(), None, Some(AttackDispersion(FRAC_PI_16)), draw));
    assert_eq!(shot.transform.translation, at(0, 0));
    assert_eq!(rng.next_u32(), twin.next_u32());
}

#[test]
fn dispersion_covers_its_arc_and_no_more() {
    let tf = Transform::from_translation(at(0, 0));
    let d = Some(AttackDispersion(FRAC_PI_16));
    assert_eq!(fire_projectile(&tf, up(), None, d, 0).transform.rotation, -FRAC_PI_16);
    assert_eq!(fire_projectile(&tf, up(), None, d, u32::MAX).transform.rotation, FRAC_PI_16);
    let mut rng = ChaCha8Rng::seed_from_u64(2);
    for _ in 0..1_000 {
        let heading = fire_projectile(&tf, up(), None, d, rng.next_u32()).transform.rotation;
        assert!(heading.abs() <= FRAC_PI_16);
    }
    // Across the seam the heading comes back into range.
    let mut near_seam = tf;
    near_seam.rotation = PI;
    assert_eq!(
        fire_projectile(&near_seam, up(), None, d, u32::MAX).transform.rotation,
        wrap_angle(PI + FRAC_PI_16)
    );
    assert_eq!(negate(5), -5);
    assert_eq!(negate(i64::MIN), i64::MAX);
}

#[test]
fn attack_delay_gates_by_its_timer() {
    let mut delay = AttackDelay::every(SECOND);
    assert_eq!(delay.0.mode(), TimerMode::Repeating);
    assert_eq!(delay.0.duration(), Duration::from_secs(1));
    assert!(attack_ready(None, SECOND));
    assert!(!attack_ready(Some(&mut delay), SECOND / 2));
    assert_eq!(delay.0.elapsed(), Duration::from_millis(500));
    assert!(attack_ready(Some(&mut delay), SECOND / 2));
    assert!(!attack_ready(Some(&mut delay), SECOND / 2));
}

#[test]
fn aoe_turret_strikes_a_target_inside_its_range() {
    let turret = AoETurret { always_attacking: false, range: units(100) };
    let tf = Transform::from_translation(Vec3 { x: units(5), y: units(6), z: units(1) });
    let near = Target { pos: Vec3 { x: units(5) + units(100) - 1, y: units(6), z: 0 } };
    let burst = aoe_turret_attack_system(&turret, &tf, None, &near, 0).unwrap();
    assert_eq!(burst.attack, AoEAttack { pos: tf.translation, radius: units(100) });
    assert_eq!(burst.animation.timer.duration(), Duration::from_millis(500));
    assert_eq!(burst.animation.timer.mode(), TimerMode::Once);
    assert_eq!(burst.animation.timer.elapsed(), Duration::ZERO);
    assert!(burst.animation.despawn_on_end);
    assert_eq!(
        burst.animation.radius_animation,
        Some(RadiusAnimation::FromStartToEnd { start_radius: SCALE, end_radius: units(100) })
    );
    let colors = burst.animation.color_animation.unwrap();
    assert_eq!(colors.start_color, Color::srgb(640_000_000, 120_000_000, 360_000_000));
    assert_eq!(colors.end_color, Color::srgb(480_000_000, 130_000_000, 640_000_000));
    assert_eq!(colors.alpha_factor, None);
    assert!(colors.animate_alpha);
    assert_eq!(burst.color, colors.start_color);
    assert_eq!(
        burst.transform,
        Transform::from_translation(Vec3 { x: units(5), y: units(6), z: units(99) })
    );
}

#[test]
fn aoe_turret_spares_a_target_on_its_rim() {
    let turret = AoETurret { always_attacking: false, range: units(100) };
    let tf = Transform::from_translation(at(0, 0));
    let on_rim = Target { pos: at(100, 0) };
    assert!(aoe_turret_attack_system(&turret, &tf, None, &on_rim, 0).is_none());
    let always = AoETurret { always_attacking: true, range: units(100) };
    assert!(aoe_turret_attack_system(&always, &tf, None, &on_rim, 0).is_some());
    let far = Target { pos: at(100_000, 0) };
    assert!(aoe_turret_attack_system(&always, &tf, None, &far, 0).is_some());
}

#[test]
fn aoe_turret_runs_its_delay_even_out_of_range() {
    let turret = AoETurret { always_attacking: false, range: units(100) };
    let tf = Transform::from_translation(at(0, 0));
    let far = Target { pos: at(500, 0) };
    let near = Target { pos: at(50, 0) };
    let mut delay = AttackDelay::every(SECOND);
    assert!(aoe_turret_attack_system(&turret, &tf, Some(&mut delay), &far, SECOND / 2).is_none());
    assert_eq!(delay.0.elapsed(), Duration::from_millis(500));
    assert!(aoe_turret_attack_system(&turret, &tf, Some(&mut delay), &near, SECOND / 4).is_none());
    assert!(aoe_turret_attack_system(&turret, &tf, Some(&mut delay), &near, SECOND / 4).is_some());
    assert!(aoe_turret_attack_system(&turret, &tf, Some(&mut delay), &near, SECOND / 4).is_none());
}

#[test]
fn pulse_blaster_is_placed_at_the_cursor() {
    let size = Vec2 { x: units(800), y: units(600) };
    assert!(spawn_projectile_turret(None, size).is_none());
    let bundle = spawn_projectile_turret(Some(Vec2 { x: units(100), y: units(100) }), size).unwrap();
    assert_eq!(bundle.transform, Transform::from_translation(at(-300, 200)));
    assert_eq!(bundle.marker, Turret(TurretType::PulseBlaster));
    assert_eq!(bundle.attack_dispersion, AttackDispersion(PI / 16));
    assert_eq!(
        bundle.targeting,
        TargetingTurret { targeting_radius: Some(units(200)), rotation: 0, has_target: false }
    );
    assert_eq!(bundle.projectile_spawn_offset, SpawnOffset(Vec3 { x: 0, y: ARROW_SIZE / 2, z: 0 }));
    assert_eq!(bundle.rotation_speed.0, FRAC_PI_2);
    assert_eq!(bundle.attack_delay.0.duration(), Duration::from_millis(200));
    assert_eq!(bundle.attack_delay.0.mode(), TimerMode::Repeating);
    assert_eq!(bundle.idle_rotation.idle_timer.duration(), Duration::from_secs(3));
    assert!(!bundle.idle_rotation.is_idle);
    let default = PulseBlasterBundle::default();
    assert_eq!(default.transform, Transform::from_translation(at(0, 0)));
    assert_eq!(TurretType::default(), TurretType::PulseBlaster);
}

#[test]
fn cryo_generator_is_placed_at_the_cursor() {
    let size = Vec2 { x: units(800), y: units(600) };
    assert!(spawn_aoe_turret(None, size).is_none());
    let bundle = spawn_aoe_turret(Some(Vec2 { x: units(400), y: units(300) }), size).unwrap();
    assert_eq!(bundle.marker, Turret(TurretType::CryoGenerator));
    assert_eq!(bundle.turret, AoETurret { range: units(100), always_attacking: false });
    assert_eq!(bundle.attack_delay.0.duration(), Duration::from_secs(1));
    assert_eq!(bundle.attack_delay.0.mode(), TimerMode::Repeating);
    assert_eq!(bundle.transform, Transform::from_translation(at(0, 0)));
}

#[test]
fn one_shot_delay_lets_through_one_shot() {
    let mut rng = ChaCha8Rng::seed_from_u64(5);
    let mut delay = AttackDelay(Timer::new(Duration::from_secs(1), TimerMode::Once));
    let tf = Transform::from_translation(at(0, 0));
    let mut fire = |delay: &mut AttackDelay, delta: u64| {
        projectile_turret_attack_system(
            &engaged(true),
            &tf,
            up(),
            Some(delay),
            None,
            None,
            delta,
            &mut rng,
        )
        .is_some()
    };
    assert!(!fire(&mut delay, SECOND / 2));
    assert!(fire(&mut delay, SECOND / 2));
    // The timer stays finished, but its interval was satisfied once.
    assert!(!fire(&mut delay, SECOND / 1000));
    assert!(!fire(&mut delay, SECOND / 1000));
    assert!(!fire(&mut delay, 10 * SECOND));
    assert!(delay.0.finished());
    assert!(!attack_ready(Some(&mut delay), SECOND));
}

#[test]
fn one_shot_delay_lets_through_one_strike() {
    let turret = AoETurret { always_attacking: true, range: units(100) };
    let tf = Transform::from_translation(at(0, 0));
    let target = Target { pos: at(10, 0) };
    let mut delay = AttackDelay(Timer::new(Duration::from_secs(1), TimerMode::Once));
    assert!(aoe_turret_attack_system(&turret, &tf, Some(&mut delay), &target, SECOND).is_some());
    assert!(aoe_turret_attack_system(&turret, &tf, Some(&mut delay), &target, SECOND / 1000).is_none());
    assert!(aoe_turret_attack_system(&turret, &tf, Some(&mut delay), &target, SECOND).is_none());
}

#[test]
fn turret_that_holds_its_fire_draws_nothing() {
    let mut rng = ChaCha8Rng::seed_from_u64(21);
    let mut untouched = ChaCha8Rng::seed_from_u64(21);
    let tf = Transform::from_translation(at(0, 0));
    let spread = Some(AttackDispersion(FRAC_PI_16));
    let mut delay = AttackDelay::every(SECOND);
    assert!(projectile_turret_attack_system(
        &engaged(false),
        &tf,
        up(),
        Some(&mut delay),
        None,
        spread,
        SECOND,
        &mut rng
    )
    .is_none());
    assert!(projectile_turret_attack_system(
        &engaged(true),
        &tf,
        up(),
        Some(&mut delay),
        None,
        spread,
        SECOND / 2,
        &mut rng
    )
    .is_none());
    assert_eq!(rng, untouched);
    assert_eq!(rng.next_u32(), untouched.next_u32());
}
