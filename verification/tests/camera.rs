use simcam::config::SensorKind;
use simcam::device::{CameraError, OperationalState, SimulatedCamera};

const MICROS_PER_SEC: f64 = 1_000_000.0;

fn secs(s: f64) -> i64 {
    (s * MICROS_PER_SEC) as i64
}

#[test]
fn fresh_device_never_ready() {
    let mut c = SimulatedCamera::new_idle_camera();
    assert_eq!(c.camera_state(), OperationalState::Idle);
    assert!(!c.image_ready(0));
    assert!(!c.image_ready(secs(1000.0)));
    assert_eq!(c.camera_state(), OperationalState::Idle);
}

#[test]
fn exposure_lifecycle_scenario() {
    // start_exposure(duration = 0.05 s, light) at t = 0
    let mut c = SimulatedCamera::new_idle_camera();
    assert_eq!(c.start_exposure(secs(0.05), true, 0), Ok(()));
    assert_eq!(c.camera_state(), OperationalState::Exposing);
    // poll at t = 0.01 s: not ready, still exposing
    assert!(!c.image_ready(secs(0.01)));
    assert_eq!(c.camera_state(), OperationalState::Exposing);
    // poll at t = 0.06 s: ready, device returns to idle
    assert!(c.image_ready(secs(0.06)));
    assert_eq!(c.camera_state(), OperationalState::Idle);
    // poll at t = 0.10 s: still ready (sticky)
    assert!(c.image_ready(secs(0.10)));
    assert_eq!(c.camera_state(), OperationalState::Idle);
}

#[test]
fn readiness_is_idempotent() {
    let mut c = SimulatedCamera::new_idle_camera();
    assert_eq!(c.start_exposure(100, true, 0), Ok(()));
    assert!(c.image_ready(101));
    for t in [101, 102, 1_000_000, i64::MAX] {
        assert!(c.image_ready(t));
        assert_eq!(c.camera_state(), OperationalState::Idle);
    }
}

#[test]
fn gating_is_strict_at_the_boundary() {
    let mut c = SimulatedCamera::new_idle_camera();
    assert_eq!(c.start_exposure(100, true, 0), Ok(()));
    // elapsed < duration: not ready
    assert!(!c.image_ready(99));
    // elapsed == duration: still not ready (strictly greater is required)
    assert!(!c.image_ready(100));
    assert_eq!(c.camera_state(), OperationalState::Exposing);
    // elapsed > duration: ready
    assert!(c.image_ready(101));
    assert_eq!(c.camera_state(), OperationalState::Idle);
}

#[test]
fn zero_duration_exposure() {
    let mut c = SimulatedCamera::new_idle_camera();
    assert_eq!(c.start_exposure(0, false, 50), Ok(()));
    // elapsed 0 is not strictly greater than duration 0
    assert!(!c.image_ready(50));
    assert!(c.image_ready(51));
}

#[test]
fn restart_resets_sticky_readiness() {
    let mut c = SimulatedCamera::new_idle_camera();
    assert_eq!(c.start_exposure(100, true, 0), Ok(()));
    assert!(c.image_ready(200));
    assert_eq!(c.camera_state(), OperationalState::Idle);
    // a new exposure clears the sticky flag and restarts the timer
    assert_eq!(c.start_exposure(100, true, 300), Ok(()));
    assert_eq!(c.camera_state(), OperationalState::Exposing);
    assert!(!c.image_ready(350));
    assert!(c.image_ready(401));
}

#[test]
fn restart_interrupts_running_exposure() {
    let mut c = SimulatedCamera::new_idle_camera();
    assert_eq!(c.start_exposure(100, true, 0), Ok(()));
    assert!(!c.image_ready(50));
    // restarting mid-exposure restarts the timer with the new parameters
    assert_eq!(c.start_exposure(100, true, 60), Ok(()));
    assert!(!c.image_ready(110));
    assert!(c.image_ready(161));
}

#[test]
fn negative_duration_is_rejected_without_state_change() {
    // start_exposure(duration = -1 s) -> InvalidParameter, state unchanged
    let mut c = SimulatedCamera::new_idle_camera();
    assert_eq!(c.start_exposure(100, true, 0), Ok(()));
    assert_eq!(
        c.start_exposure(secs(-1.0), true, 10),
        Err(CameraError::InvalidParameter)
    );
    assert_eq!(c.camera_state(), OperationalState::Exposing);
    // the first exposure still runs on its own timer
    assert!(!c.image_ready(90));
    assert!(c.image_ready(101));
}

#[test]
fn negative_duration_rejected_on_fresh_device() {
    let mut c = SimulatedCamera::new_idle_camera();
    assert_eq!(
        c.start_exposure(-1, false, 0),
        Err(CameraError::InvalidParameter)
    );
    assert_eq!(c.camera_state(), OperationalState::Idle);
    assert!(!c.image_ready(1_000_000));
}

#[test]
fn payload_matches_sensor_geometry() {
    let c = SimulatedCamera::new_idle_camera();
    let v = c.image_payload();
    assert_eq!(v.len(), 1000 * 1000 * 3);
    assert!(v.iter().all(|&s| s == 1000));
}

#[test]
fn payload_shape_is_independent_of_readiness() {
    let mut c = SimulatedCamera::new_idle_camera();
    // unready device: same shape anyway
    assert_eq!(c.image_payload().len(), 3_000_000);
    assert_eq!(c.start_exposure(100, true, 0), Ok(()));
    assert_eq!(c.image_payload().len(), 3_000_000);
    assert!(c.image_ready(101));
    assert_eq!(c.image_payload().len(), 3_000_000);
}

#[test]
fn image_array_is_shaped_and_filled() {
    let c = SimulatedCamera::new_idle_camera();
    let arr = c.image_array();
    assert_eq!(arr.dim(), (1000, 1000, 3));
    assert_eq!(arr.len(), 3_000_000);
    assert!(arr.iter().all(|&s| s == 1000));
}

#[test]
fn capability_constants() {
    let c = SimulatedCamera::new_idle_camera();
    assert_eq!(SimulatedCamera::static_name(), "Fake CCD Camera");
    assert_eq!(
        SimulatedCamera::unique_id(),
        "f2ac654a-a710-41ab-9484-33f4e73b180b"
    );
    assert_eq!(SimulatedCamera::description(), "fake CCD camera");
    assert_eq!(SimulatedCamera::driver_info(), "");
    assert_eq!(SimulatedCamera::driver_version(), "");
    assert!(c.connected());
    assert_eq!(c.bayer_offset_x(), 0);
    assert_eq!(c.bayer_offset_y(), 0);
    assert_eq!(c.exposure_min_micros(), 1);
    assert_eq!(c.exposure_max_micros(), 120_000_000);
    assert_eq!(c.exposure_resolution_micros(), 100);
    assert!(!c.has_shutter());
    assert_eq!(c.max_adu(), 65535);
    assert_eq!(c.start_x(), 0);
    assert_eq!(c.start_y(), 0);
    assert_eq!(c.bin_x(), 1);
    assert_eq!(c.bin_y(), 1);
    assert_eq!(c.camera_xsize(), 1000);
    assert_eq!(c.camera_ysize(), 1000);
    assert_eq!(c.num_x(), 1000);
    assert_eq!(c.num_y(), 1000);
    assert_eq!(c.sensor_type(), SensorKind::Color);
}

#[test]
fn setters_are_accepted_and_ignored() {
    let mut c = SimulatedCamera::new_idle_camera();
    assert_eq!(c.start_exposure(100, true, 0), Ok(()));
    c.set_connected(false);
    c.set_start_x(7);
    c.set_start_y(7);
    c.set_bin_x(4);
    c.set_bin_y(4);
    c.set_num_x(12);
    c.set_num_y(12);
    assert!(c.connected());
    assert_eq!(c.start_x(), 0);
    assert_eq!(c.bin_x(), 1);
    assert_eq!(c.num_x(), 1000);
    // the exposure in progress is untouched
    assert_eq!(c.camera_state(), OperationalState::Exposing);
    assert!(c.image_ready(101));
}
