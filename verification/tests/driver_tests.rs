use raytracer::camera::Camera;
use raytracer::driver::{DriverState, FrameDriver};
use raytracer::shading::render_pixel;
use raytracer::vec3::Vec3;

#[test]
fn driver_setup_rejects_degenerate_surface() {
    assert!(FrameDriver::new(0, 600).is_none());
    assert!(FrameDriver::new(800, 0).is_none());
    let d = FrameDriver::new(800, 600).unwrap();
    assert_eq!(d.state, DriverState::Ready);
    assert_eq!(d.width, 800);
    assert_eq!(d.height, 600);
    assert_eq!(d.camera, Camera::new(800, 600).unwrap());
}

#[test]
fn tick_renders_only_when_ready() {
    let mut d = FrameDriver::new(800, 600).unwrap();
    assert!(d.tick(10));
    d.resize(0, 0);
    assert_eq!(d.state, DriverState::Suspended);
    let phase = d.scene.light_phase;
    assert!(!d.tick(10)); // suspended: no frame, no animation
    assert_eq!(d.scene.light_phase, phase);
    d.resize(640, 480);
    assert_eq!(d.state, DriverState::Ready);
    assert!(d.tick(10));
}

#[test]
fn close_is_terminal() {
    let mut d = FrameDriver::new(800, 600).unwrap();
    d.request_close();
    assert_eq!(d.state, DriverState::ShutDown);
    assert!(!d.tick(10));
    d.resize(640, 480); // ignored after shutdown
    assert_eq!(d.state, DriverState::ShutDown);
    assert_eq!(d.width, 800);
}

#[test]
fn surface_lost_reconfigures_and_recovers() {
    let mut d = FrameDriver::new(800, 600).unwrap();
    d.surface_lost();
    assert_eq!(d.state, DriverState::Ready);
    assert_eq!(d.width, 800);
    assert_eq!(d.height, 600);
}

#[test]
fn suspend_resume_round_trip_restores_renderer() {
    // resize 800x600 -> 0x0 -> 800x600 leaves the driver Ready and equal,
    // field for field, to a driver never resized; frames are a pure
    // function of that state, so they come out identical
    let mut resized = FrameDriver::new(800, 600).unwrap();
    let fresh = FrameDriver::new(800, 600).unwrap();
    resized.resize(0, 0);
    assert_eq!(resized.state, DriverState::Suspended);
    resized.resize(800, 600);
    assert_eq!(resized.state, DriverState::Ready);
    assert_eq!(resized.camera, fresh.camera);
    assert_eq!(resized.width, fresh.width);
    assert_eq!(resized.height, fresh.height);
    assert_eq!(resized.scene.light_phase, fresh.scene.light_phase);
    assert_eq!(resized.scene.spheres, fresh.scene.spheres);

    let light_a = resized.scene.light_snapshot(1_500_000, 0);
    let light_b = fresh.scene.light_snapshot(1_500_000, 0);
    let probes: [(i64, i64); 3] = [(0, 0), (0, 2_500), (-5_000, 5_000)];
    for (nx, ny) in probes {
        let a: Vec3 = render_pixel(&resized.camera, &resized.scene.spheres, &light_a, nx, ny);
        let b: Vec3 = render_pixel(&fresh.camera, &fresh.scene.spheres, &light_b, nx, ny);
        assert_eq!(a, b);
    }
}
