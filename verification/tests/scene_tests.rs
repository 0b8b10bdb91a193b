use raytracer::scene::{
    Scene, ANGULAR_SPEED, DEFAULT_FRAME_MS, FULL_TURN, LIGHT_INTENSITY, LIGHT_Y, ORBIT_RADIUS,
};
use raytracer::vec3::Vec3;

#[test]
fn scene_default_contents() {
    let s = Scene::new();
    assert_eq!(s.spheres.len(), 4);
    assert_eq!(s.light_phase, 0);
    assert_eq!(s.light_y, LIGHT_Y);
    assert_eq!(s.light_intensity, LIGHT_INTENSITY);
    // the ground sphere
    assert_eq!(s.spheres[0].center, Vec3 { x: 0, y: 506_000, z: -10_000 });
    assert_eq!(s.spheres[0].radius, 500_000);
    // one small sphere, with its own color and reflectivity
    assert_eq!(s.spheres[1].color, Vec3 { x: 5_000, y: 0, z: 0 });
    assert_eq!(s.spheres[1].reflectivity, 5_000);
}

#[test]
fn animate_advances_phase_linearly() {
    let mut s = Scene::new();
    s.animate(1);
    assert_eq!(s.light_phase, ANGULAR_SPEED);
    s.animate(9);
    assert_eq!(s.light_phase, 10 * ANGULAR_SPEED);
}

#[test]
fn light_update_is_one_fixed_step() {
    let mut s = Scene::new();
    s.light_update();
    assert_eq!(s.light_phase, DEFAULT_FRAME_MS * ANGULAR_SPEED);
}

#[test]
fn animate_split_equals_single_call() {
    // orbit additivity: t1 + t2 == T gives the same phase as one call
    let mut split = Scene::new();
    split.animate(7);
    split.animate(5);
    let mut whole = Scene::new();
    whole.animate(12);
    assert_eq!(split.light_phase, whole.light_phase);

    // also with more than one revolution's worth of time
    let mut split2 = Scene::new();
    split2.animate(12_000);
    split2.animate(567);
    let mut whole2 = Scene::new();
    whole2.animate(12_567);
    assert_eq!(split2.light_phase, whole2.light_phase);
}

#[test]
fn orbit_is_periodic_after_whole_turns() {
    // FULL_TURN milliseconds advance the phase by ANGULAR_SPEED * FULL_TURN
    // units, i.e. exactly ANGULAR_SPEED whole revolutions: the angle on
    // the orbit circle comes back to its starting value exactly.
    let mut s = Scene::new();
    s.light_update();
    let start = s.reduced_phase();
    s.animate(FULL_TURN);
    assert_eq!(s.reduced_phase(), start);
    // piecewise too, through repeated animate calls
    let mut p = Scene::new();
    p.light_update();
    for _ in 0..1_000 {
        p.animate(FULL_TURN / 1_000);
    }
    p.animate(FULL_TURN % 1_000);
    assert_eq!(p.reduced_phase(), start);
}

#[test]
fn phase_never_decreases() {
    // the stored phase is the monotone total advance, even across a full
    // revolution of the orbit circle
    let mut s = Scene::new();
    s.light_update();
    let before = s.light_phase;
    s.animate(FULL_TURN);
    assert!(s.light_phase >= before);
    assert_eq!(s.light_phase, before + ANGULAR_SPEED * FULL_TURN);
    assert!(s.reduced_phase() < FULL_TURN);
}

#[test]
fn phase_saturates_at_the_top_instead_of_wrapping() {
    let mut s = Scene::new();
    s.animate(u64::MAX);
    assert_eq!(s.light_phase, u64::MAX);
    let before = s.light_phase;
    s.animate(10);
    assert!(s.light_phase >= before); // still monotone at the cap
    assert!(s.reduced_phase() < FULL_TURN);
}

#[test]
fn animate_leaves_spheres_untouched() {
    let mut s = Scene::new();
    let before = s.snapshot_spheres();
    s.animate(123);
    let after = s.snapshot_spheres();
    assert_eq!(before, after);
}

#[test]
fn light_snapshot_carries_orbit_position() {
    let s = Scene::new();
    // the glue evaluates the orbit circle; at phase 0 that is
    // (ORBIT_RADIUS * cos 0, LIGHT_Y, ORBIT_RADIUS * sin 0)
    let phase_rad = s.reduced_phase() as f64 * 5.0e-7;
    let x = (ORBIT_RADIUS as f64 * phase_rad.cos()).round() as i64;
    let z = (ORBIT_RADIUS as f64 * phase_rad.sin()).round() as i64;
    let l = s.light_snapshot(x, z);
    assert_eq!(l.position, Vec3 { x: ORBIT_RADIUS, y: LIGHT_Y, z: 0 });
    assert_eq!(l.intensity, LIGHT_INTENSITY);
}

#[test]
fn from_parts_keeps_configuration() {
    let spheres = vec![raytracer::sphere::Sphere::new(
        Vec3 { x: 0, y: 0, z: 0 },
        10_000,
        Vec3 { x: 10_000, y: 0, z: 0 },
        0,
    )];
    let s = Scene::from_parts(spheres, -1_000_000, 10_000);
    assert_eq!(s.spheres.len(), 1);
    assert_eq!(s.light_phase, 0);
    assert_eq!(s.light_y, -1_000_000);
    assert_eq!(s.light_intensity, 10_000);
}
