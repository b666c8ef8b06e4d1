use bevy::time::TimerMode;
use std::time::Duration;
use turret_sim::components::turrets::{
    DecayType, Decaying, ExplosionToSpawn, Explosive, LinearVelocity, Projectile, Target,
};
use turret_sim::math::{Direction, Transform, Vec3};
use turret_sim::systems::turrets::{
    decaying_projectile_system, flight_angle, is_outside_window, projectile_system,
    ProjectileOutcome, DESPAWN_MARGIN, PROJECTILE_SPEED, TARGET_RADIUS,
};
use turret_sim::units::{FRAC_PI_2, PI, SCALE};
use turret_sim::WinSize;

const SECOND: u64 = 1_000_000_000;

fn units(x: i64) -> i64 {
    x * SCALE
}

fn at(x: i64, y: i64) -> Vec3 {
    Vec3 { x: units(x), y: units(y), z: 0 }
}

fn window() -> WinSize {
    WinSize { width: units(800), height: units(600) }
}

fn far_target() -> Target {
    Target { pos: at(0, 100_000) }
}

fn bullet(auto_despawn: bool) -> Projectile {
    Projectile { auto_despawn, radius: SCALE }
}

fn still() -> Option<LinearVelocity> {
    Some(LinearVelocity(0))
}

fn up() -> Direction {
    Direction { cos: 0, sin: SCALE }
}

fn stays(outcome: ProjectileOutcome) -> bool {
    !outcome.despawn && outcome.explosion.is_none()
}

#[test]
fn default_speed_and_radii() {
    assert_eq!(PROJECTILE_SPEED, units(300));
    assert_eq!(TARGET_RADIUS, units(20));
    assert_eq!(DESPAWN_MARGIN, units(200));
}

#[test]
fn projectile_flies_along_its_heading() {
    let mut tf = Transform::from_translation(Vec3 { x: units(1), y: units(2), z: units(3) });
    // Heading zero is up: the flight angle is a quarter turn from the x axis.
    assert_eq!(flight_angle(0), FRAC_PI_2);
    assert_eq!(flight_angle(FRAC_PI_2), PI);
    assert_eq!(flight_angle(PI), -FRAC_PI_2);
    let outcome =
        projectile_system(&mut tf, &bullet(true), None, None, up(), &far_target(), &window(), SECOND / 10);
    assert!(stays(outcome));
    // 300 a second for a tenth of a second.
    assert_eq!(tf.translation, Vec3 { x: units(1), y: units(32), z: units(3) });
    assert_eq!(tf.rotation, 0);
    let slanted = Direction { cos: 600_000_000, sin: -800_000_000 };
    let outcome = projectile_system(
        &mut tf,
        &bullet(true),
        Some(LinearVelocity(units(200))),
        None,
        slanted,
        &far_target(),
        &window(),
        SECOND / 2,
    );
    assert!(stays(outcome));
    assert_eq!(tf.translation, Vec3 { x: units(61), y: units(-48), z: units(3) });
}

#[test]
fn projectile_just_inside_contact_is_removed() {
    let target = Target { pos: at(0, 0) };
    let mut tf = Transform::from_translation(Vec3 { x: units(21) - 1, y: 0, z: 0 });
    let outcome =
        projectile_system(&mut tf, &bullet(false), still(), None, up(), &target, &window(), SECOND);
    assert!(outcome.despawn);
    assert_eq!(outcome.explosion, None);
}

#[test]
fn projectile_at_or_past_contact_flies_on() {
    let target = Target { pos: at(0, 0) };
    let mut on_rim = Transform::from_translation(at(21, 0));
    assert!(stays(projectile_system(
        &mut on_rim,
        &bullet(false),
        still(),
        None,
        up(),
        &target,
        &window(),
        SECOND
    )));
    let mut past = Transform::from_translation(Vec3 { x: units(21) + 1, y: 0, z: 0 });
    assert!(stays(projectile_system(
        &mut past,
        &bullet(false),
        still(),
        None,
        up(),
        &target,
        &window(),
        SECOND
    )));
}

#[test]
fn contact_counts_depth_too() {
    let target = Target { pos: at(0, 0) };
    let mut above = Transform::from_translation(Vec3 { x: units(12), y: units(12), z: units(12) });
    // 12*12*3 = 432 < 441, so this one touches; at depth 13 it would be 457 and miss.
    assert!(projectile_system(&mut above, &bullet(false), still(), None, up(), &target, &window(), 0).despawn);
    let mut deeper = Transform::from_translation(Vec3 { x: units(12), y: units(12), z: units(13) });
    assert!(stays(projectile_system(
        &mut deeper,
        &bullet(false),
        still(),
        None,
        up(),
        &target,
        &window(),
        0
    )));
}

#[test]
fn contact_is_tested_after_the_move() {
    let target = Target { pos: at(0, 100) };
    let mut tf = Transform::from_translation(at(0, 50));
    let outcome =
        projectile_system(&mut tf, &bullet(false), None, None, up(), &target, &window(), SECOND / 10);
    // Moved to 80: 20 from the target, inside the 21 of contact.
    assert_eq!(tf.translation, at(0, 80));
    assert!(outcome.despawn);
}

#[test]
fn explosive_projectile_asks_for_a_burst_where_it_hit() {
    let target = Target { pos: at(0, 0) };
    let mut tf = Transform::from_translation(at(3, 4));
    let explosive = Explosive { radius: units(20), damage: units(5) };
    let outcome = projectile_system(
        &mut tf,
        &bullet(true),
        still(),
        Some(explosive),
        up(),
        &target,
        &window(),
        SECOND,
    );
    assert!(outcome.despawn);
    assert_eq!(
        outcome.explosion,
        Some(ExplosionToSpawn { radius: units(20), damage: units(5), pos: at(3, 4) })
    );
    let mut miss = Transform::from_translation(at(300, 4));
    let outcome = projectile_system(
        &mut miss,
        &bullet(true),
        still(),
        Some(explosive),
        up(),
        &target,
        &window(),
        SECOND,
    );
    assert!(stays(outcome));
}

#[test]
fn scenario_projectile_past_the_margin_is_removed() {
    let mut tf = Transform::from_translation(at(601, 0));
    let outcome =
        projectile_system(&mut tf, &bullet(true), still(), None, up(), &far_target(), &window(), SECOND);
    assert!(outcome.despawn);
    assert_eq!(outcome.explosion, None);
}

#[test]
fn scenario_projectile_on_the_margin_stays() {
    let mut tf = Transform::from_translation(at(600, 0));
    let outcome =
        projectile_system(&mut tf, &bullet(true), still(), None, up(), &far_target(), &window(), SECOND);
    assert!(stays(outcome));
}

#[test]
fn margin_holds_on_every_side() {
    let win = window();
    assert!(!is_outside_window(at(600, 500), &win));
    assert!(!is_outside_window(at(-600, -500), &win));
    assert!(is_outside_window(Vec3 { x: units(600) + 1, y: 0, z: 0 }, &win));
    assert!(is_outside_window(Vec3 { x: -units(600) - 1, y: 0, z: 0 }, &win));
    assert!(is_outside_window(Vec3 { x: 0, y: units(500) + 1, z: 0 }, &win));
    assert!(is_outside_window(Vec3 { x: 0, y: -units(500) - 1, z: 0 }, &win));
    let huge = WinSize { width: i64::MAX, height: i64::MAX };
    let edge = i64::MAX / 2 + DESPAWN_MARGIN;
    assert!(!is_outside_window(Vec3 { x: edge, y: -edge, z: 0 }, &huge));
    assert!(is_outside_window(Vec3 { x: edge + 1, y: 0, z: 0 }, &huge));
    assert!(is_outside_window(Vec3 { x: 0, y: i64::MIN, z: 0 }, &huge));
}

#[test]
fn projectile_that_does_not_leave_by_itself_flies_on_outside() {
    let mut tf = Transform::from_translation(at(5_000, 5_000));
    let outcome =
        projectile_system(&mut tf, &bullet(false), still(), None, up(), &far_target(), &window(), SECOND);
    assert!(stays(outcome));
}

#[test]
fn contact_wins_over_the_margin() {
    let target = Target { pos: at(700, 0) };
    let mut tf = Transform::from_translation(at(700, 0));
    let explosive = Explosive { radius: 1, damage: 2 };
    let outcome = projectile_system(
        &mut tf,
        &bullet(true),
        still(),
        Some(explosive),
        up(),
        &target,
        &window(),
        SECOND,
    );
    assert!(outcome.despawn);
    assert!(outcome.explosion.is_some());
}

#[test]
fn flight_stops_at_the_end_of_the_range() {
    let mut tf = Transform::from_translation(Vec3 { x: i64::MAX - 5, y: i64::MIN + 5, z: 0 });
    let outcome = projectile_system(
        &mut tf,
        &bullet(false),
        Some(LinearVelocity(i64::MAX)),
        None,
        Direction { cos: SCALE, sin: -SCALE },
        &far_target(),
        &window(),
        u64::MAX,
    );
    assert!(stays(outcome));
    assert_eq!(tf.translation, Vec3 { x: i64::MAX, y: i64::MIN, z: 0 });
}

#[test]
fn despawning_decay_removes_exactly_when_the_timer_finishes() {
    for auto_despawn in [false, true] {
        let mut decaying = Decaying::new(SECOND, DecayType::Despawn);
        assert_eq!(decaying.decay_timer.mode(), TimerMode::Once);
        assert_eq!(decaying.decay_timer.duration(), Duration::from_secs(1));
        for _ in 0..9 {
            let frame = decaying_projectile_system(&mut decaying, &bullet(auto_despawn), SECOND / 10);
            assert!(!frame.despawn);
            assert_eq!(frame.alpha, None);
            assert!(!decaying.decay_timer.finished());
        }
        let frame = decaying_projectile_system(&mut decaying, &bullet(auto_despawn), SECOND / 10);
        assert!(frame.despawn);
        assert_eq!(frame.alpha, None);
        assert!(decaying.decay_timer.finished());
        assert!(decaying_projectile_system(&mut decaying, &bullet(auto_despawn), SECOND / 10).despawn);
    }
}

#[test]
fn fading_decay_dims_frame_by_frame_down_to_nothing() {
    let mut decaying = Decaying::new(SECOND, DecayType::Transparency);
    let mut last = SCALE;
    for frame_no in 1..=10 {
        let frame = decaying_projectile_system(&mut decaying, &bullet(true), SECOND / 10);
        let alpha = frame.alpha.unwrap();
        assert_eq!(alpha, SCALE - frame_no * (SCALE / 10));
        assert!(alpha < last);
        last = alpha;
        assert_eq!(frame.despawn, frame_no == 10);
        assert_eq!(frame.despawn, alpha == 0);
    }
    let frame = decaying_projectile_system(&mut decaying, &bullet(true), SECOND);
    assert_eq!(frame.alpha, Some(0));
    assert!(frame.despawn);
}

#[test]
fn fading_decay_removes_only_what_leaves_by_itself() {
    let mut decaying = Decaying::new(SECOND, DecayType::Transparency);
    let frame = decaying_projectile_system(&mut decaying, &bullet(false), SECOND / 2);
    assert_eq!(frame.alpha, Some(SCALE / 2));
    assert!(!frame.despawn);
    let frame = decaying_projectile_system(&mut decaying, &bullet(false), SECOND);
    assert_eq!(frame.alpha, Some(0));
    assert!(decaying.decay_timer.finished());
    assert!(!frame.despawn);
    let frame = decaying_projectile_system(&mut decaying, &bullet(true), SECOND);
    assert_eq!(frame.alpha, Some(0));
    assert!(frame.despawn);
}

#[test]
fn fading_decay_holds_its_opacity_through_an_empty_frame() {
    let mut decaying = Decaying::new(4 * SECOND, DecayType::Transparency);
    let p = bullet(true);
    assert_eq!(decaying_projectile_system(&mut decaying, &p, SECOND).alpha, Some(750_000_000));
    assert_eq!(decaying_projectile_system(&mut decaying, &p, 0).alpha, Some(750_000_000));
    assert_eq!(decaying_projectile_system(&mut decaying, &p, 1).alpha, Some(750_000_000));
    assert_eq!(decaying_projectile_system(&mut decaying, &p, 3).alpha, Some(749_999_999));
}
