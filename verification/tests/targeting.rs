use turret_sim::components::turrets::{Homing, RotationSpeed, Target, TargetingTurret};
use turret_sim::math::{
    is_closer_than, is_inside_radius, is_within_radius, Direction, Transform, Vec2, Vec3,
};
use turret_sim::systems::turrets::{
    diff_to_bearing, homing_projectile_system, move_target, turret_targeting_system,
    window_to_world_coords,
};
use turret_sim::units::{FRAC_PI_2, FRAC_PI_4, PI, SCALE};

fn units(x: i64) -> i64 {
    x * SCALE
}

fn at(x: i64, y: i64) -> Vec3 {
    Vec3 { x: units(x), y: units(y), z: 0 }
}

fn bearing(from: Vec3, to: Vec3) -> i64 {
    let dy = (to.y - from.y) as f64;
    let dx = (to.x - from.x) as f64;
    (dy.atan2(dx) * 1e9).round() as i64
}

fn turret(radius: Option<i64>) -> TargetingTurret {
    TargetingTurret { targeting_radius: radius, rotation: 0, has_target: false }
}

#[test]
fn target_on_the_rim_is_in_range() {
    let mut t = turret(Some(units(200)));
    let mut tf = Transform::from_translation(at(0, 0));
    let target = at(200, 0);
    turret_targeting_system(&mut t, &mut tf, None, target, bearing(at(0, 0), target), 0);
    assert!(t.has_target);
}

#[test]
fn target_just_past_the_rim_is_out_of_range() {
    let mut t = turret(Some(units(200)));
    t.has_target = true;
    let mut tf = Transform::from_translation(at(0, 0));
    let target = Vec3 { x: units(200) + 1, y: 0, z: 0 };
    turret_targeting_system(&mut t, &mut tf, None, target, 0, 100_000_000);
    assert!(!t.has_target);
    assert_eq!(tf, Transform::from_translation(at(0, 0)));
    assert_eq!(t.rotation, 0);
}

#[test]
fn rim_is_exact_on_a_diagonal() {
    // 3-4-5 triangle: the target is exactly 500 away.
    assert!(is_within_radius(at(0, 0), at(300, 400), units(500)));
    assert!(!is_within_radius(at(0, 0), at(300, 400), units(500) - 1));
    assert!(!is_inside_radius(at(0, 0), at(300, 400), units(500)));
    assert!(is_inside_radius(at(0, 0), at(300, 400), units(500) + 1));
    assert!(!is_within_radius(at(0, 0), at(0, 0), -1));
    assert!(is_within_radius(at(0, 0), at(0, 0), 0));
    assert!(!is_inside_radius(at(0, 0), at(0, 0), 0));
}

#[test]
fn distance_tests_take_the_ends_of_the_range() {
    let low = Vec3 { x: i64::MIN, y: i64::MIN, z: i64::MIN };
    let high = Vec3 { x: i64::MAX, y: i64::MAX, z: i64::MAX };
    assert!(!is_within_radius(low, high, i64::MAX));
    assert!(!is_closer_than(low, high, i64::MAX, i64::MAX));
    assert!(is_within_radius(high, high, i64::MAX));
    assert!(is_closer_than(low, low, i64::MAX, i64::MAX));
    assert!(!is_closer_than(low, low, i64::MIN, i64::MAX));
}

#[test]
fn turret_without_radius_always_engages() {
    let mut t = turret(None);
    let mut tf = Transform::from_translation(at(0, 0));
    let target = at(1_000_000, 0);
    turret_targeting_system(&mut t, &mut tf, None, target, 0, 0);
    assert!(t.has_target);
}

#[test]
fn scenario_turret_turns_a_tenth_of_pi_in_a_tenth_of_a_second() {
    let mut t = turret(Some(units(200)));
    let mut tf = Transform::from_translation(at(0, 0));
    let target = at(150, 0);
    // The target lies along the x axis, a quarter turn clockwise of "up".
    turret_targeting_system(
        &mut t,
        &mut tf,
        Some(RotationSpeed(PI)),
        target,
        bearing(at(0, 0), target),
        100_000_000,
    );
    assert!(t.has_target);
    assert_eq!(tf.rotation, -314_159_265);
    assert_eq!(t.rotation, -314_159_265);
    assert_eq!(tf.translation, at(0, 0));
}

#[test]
fn default_rotation_speed_is_half_a_turn_a_second() {
    let mut with_default = turret(None);
    let mut tf_default = Transform::from_translation(at(0, 0));
    let mut with_speed = turret(None);
    let mut tf_speed = Transform::from_translation(at(0, 0));
    turret_targeting_system(&mut with_default, &mut tf_default, None, at(0, -10), -FRAC_PI_2, 250_000_000);
    turret_targeting_system(
        &mut with_speed,
        &mut tf_speed,
        Some(RotationSpeed(PI)),
        at(0, -10),
        -FRAC_PI_2,
        250_000_000,
    );
    assert_eq!(tf_default, tf_speed);
    // Straight down is half a turn away; a quarter of a second covers a quarter of it.
    assert_eq!(tf_default.rotation, FRAC_PI_4);
}

#[test]
fn turret_stops_on_the_target_heading() {
    let mut t = turret(None);
    let mut tf = Transform::from_translation(at(0, 0));
    // Two seconds at half a turn a second would be a full turn; the target is a quarter turn away.
    turret_targeting_system(&mut t, &mut tf, None, at(-10, 0), PI, 2_000_000_000);
    assert_eq!(tf.rotation, FRAC_PI_2);
    assert_eq!(diff_to_bearing(tf.rotation, PI), 0);
}

#[test]
fn aligned_turret_does_not_jitter() {
    let mut t = turret(None);
    let mut tf = Transform::from_translation(at(0, 0));
    tf.rotation = 9_999_999;
    // Facing up needs a bearing of a quarter turn.
    turret_targeting_system(&mut t, &mut tf, None, at(0, 10), FRAC_PI_2, 1_000_000_000);
    assert!(t.has_target);
    assert_eq!(tf.rotation, 9_999_999);
    tf.rotation = 10_000_000;
    turret_targeting_system(&mut t, &mut tf, None, at(0, 10), FRAC_PI_2, 1_000_000_000);
    assert_eq!(tf.rotation, 0);
}

#[test]
fn turret_turns_the_short_way_across_the_seam() {
    let mut t = turret(None);
    let mut tf = Transform::from_translation(at(0, 0));
    tf.rotation = PI - 1_000_000_000;
    // Desired heading is -(PI - 1): two radians on across the seam, not 4.28 back.
    let wanted_bearing = -(PI - 1_000_000_000) + FRAC_PI_2;
    turret_targeting_system(&mut t, &mut tf, Some(RotationSpeed(SCALE)), at(1, 1), wanted_bearing, 1_500_000_000);
    assert_eq!(tf.rotation, -(PI - 500_000_000));
    assert_eq!(t.rotation, PI + 500_000_000);
}

#[test]
fn cursor_maps_to_world() {
    let size = Vec2 { x: units(800), y: units(600) };
    assert_eq!(window_to_world_coords(Vec2 { x: 0, y: 0 }, size), at(-400, 300));
    assert_eq!(window_to_world_coords(Vec2 { x: units(400), y: units(300) }, size), at(0, 0));
    assert_eq!(window_to_world_coords(Vec2 { x: units(800), y: units(600) }, size), at(400, -300));
    let odd = Vec2 { x: 3, y: 3 };
    assert_eq!(window_to_world_coords(Vec2 { x: 0, y: 0 }, odd), Vec3 { x: -1, y: 1, z: 0 });
}

#[test]
fn target_follows_the_cursor_only_inside_the_window() {
    let size = Vec2 { x: units(800), y: units(600) };
    let mut tf = Transform::from_translation(Vec3 { x: 1, y: 2, z: 7 });
    let mut target = Target { pos: at(5, 5) };
    move_target(&mut tf, &mut target, None, size);
    assert_eq!(target.pos, at(5, 5));
    assert_eq!(tf.translation, Vec3 { x: 1, y: 2, z: 7 });
    move_target(&mut tf, &mut target, Some(Vec2 { x: units(500), y: units(100) }), size);
    assert_eq!(target.pos, at(100, 200));
    assert_eq!(tf.translation, Vec3 { x: units(100), y: units(200), z: 7 });
}

#[test]
fn homing_steers_inside_its_distance_and_angle() {
    let homing = Homing { homing_distance: units(500), homing_angle: PI, homing_speed: 2 * SCALE };
    let target = Target { pos: at(100, 0) };
    let mut tf = Transform::from_translation(at(0, 0));
    homing_projectile_system(&homing, &mut tf, &target, 0, 100_000_000);
    // A quarter turn off; two radians a second for a tenth of a second.
    assert_eq!(tf.rotation, -200_000_000);
}

#[test]
fn homing_ignores_far_sharp_and_aligned_targets() {
    let target = Target { pos: at(100, 0) };
    let start = Transform::from_translation(at(0, 0));

    let near_sighted = Homing { homing_distance: units(100) - 1, homing_angle: PI, homing_speed: SCALE };
    let mut tf = start;
    homing_projectile_system(&near_sighted, &mut tf, &target, 0, 100_000_000);
    assert_eq!(tf, start);

    let on_the_rim = Homing { homing_distance: units(100), homing_angle: PI, homing_speed: SCALE };
    let mut tf = start;
    homing_projectile_system(&on_the_rim, &mut tf, &target, 0, 100_000_000);
    assert_eq!(tf.rotation, -100_000_000);

    let stiff = Homing { homing_distance: units(500), homing_angle: FRAC_PI_2 - 1, homing_speed: SCALE };
    let mut tf = start;
    homing_projectile_system(&stiff, &mut tf, &target, 0, 100_000_000);
    assert_eq!(tf, start);

    let supple = Homing { homing_distance: units(500), homing_angle: FRAC_PI_2, homing_speed: SCALE };
    let mut tf = start;
    homing_projectile_system(&supple, &mut tf, &target, 0, 100_000_000);
    assert_eq!(tf.rotation, -100_000_000);

    let mut tf = start;
    homing_projectile_system(&supple, &mut tf, &target, FRAC_PI_2 + 5_000_000, 100_000_000);
    assert_eq!(tf, start);
}

#[test]
fn offsets_turn_with_the_turret() {
    let up = Direction { cos: SCALE, sin: 0 };
    let left = Direction { cos: 0, sin: SCALE };
    let offset = Vec3 { x: units(2), y: units(25), z: units(1) };
    assert_eq!(offset.rotated_by(up), offset);
    assert_eq!(offset.rotated_by(left), Vec3 { x: units(-25), y: units(2), z: units(1) });
    assert_eq!(at(1, 2).plus(at(3, -5)), at(4, -3));
    assert_eq!(Vec3::zero(), at(0, 0));
    assert_eq!(at(1, 2).with_z(9), Vec3 { x: units(1), y: units(2), z: 9 });
}
