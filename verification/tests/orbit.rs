use watch_stl::orbit::{InputSample, OrbitController, DISTANCE_MIN, POINTER_LIMIT, WHEEL_LIMIT};
use watch_stl::UNIT;

fn sample(button_held: bool, dx: i64, dy: i64, wheel: i64) -> InputSample {
    InputSample { button_held, pointer_dx: dx, pointer_dy: dy, wheel_delta: wheel }
}

/// The worked example: speed 1.0, button held, pointer delta (0.1, 0)
/// turns yaw to 0.1 and leaves pitch at 0.
#[test]
fn held_pointer_accumulates_yaw() {
    let mut c = OrbitController::new();
    assert_eq!(c.distance, UNIT);
    c.update(&sample(true, UNIT / 10, 0, 0));
    assert_eq!(c.yaw, UNIT / 10);
    assert_eq!(c.pitch, 0);
    assert_eq!(c.distance, UNIT);
}

/// Vertical movement accumulates into pitch, and repeated updates add up.
#[test]
fn held_pointer_accumulates_pitch() {
    let mut c = OrbitController::new();
    c.update(&sample(true, 0, 250_000, 0));
    c.update(&sample(true, 0, 250_000, 0));
    assert_eq!(c.yaw, 0);
    assert_eq!(c.pitch, 500_000);
}

/// With the button released the angles do not change (no decay).
#[test]
fn released_pointer_leaves_angles() {
    let mut c = OrbitController::new();
    c.update(&sample(true, UNIT / 10, UNIT / 5, 0));
    let (yaw, pitch) = (c.yaw, c.pitch);
    c.update(&sample(false, POINTER_LIMIT, -POINTER_LIMIT, 0));
    assert_eq!(c.yaw, yaw);
    assert_eq!(c.pitch, pitch);
}

/// The wheel moves the distance by a thousandth of its delta.
#[test]
fn wheel_moves_distance() {
    let mut c = OrbitController::new();
    c.update(&sample(false, 0, 0, 500_000));
    assert_eq!(c.distance, UNIT + 500);
    c.update(&sample(false, 0, 0, -200_000));
    assert_eq!(c.distance, UNIT + 300);
}

/// The distance never reaches zero: it is clamped to a positive minimum,
/// so the camera cannot cross through the target.
#[test]
fn distance_clamped_to_minimum() {
    let mut c = OrbitController::new();
    for _ in 0..3 {
        c.update(&sample(false, 0, 0, -WHEEL_LIMIT));
    }
    assert_eq!(c.distance, DISTANCE_MIN);
}

/// A sample outside the device-independent ranges is ignored for its
/// frame.
#[test]
fn invalid_sample_ignored() {
    let mut c = OrbitController::new();
    c.update(&sample(true, POINTER_LIMIT + 1, 0, 0));
    assert_eq!(c.yaw, 0);
    assert_eq!(c.distance, UNIT);
    c.update(&sample(true, 0, 0, WHEEL_LIMIT + 1));
    assert_eq!(c.distance, UNIT);
}

/// A configured speed scales the accumulated angle.
#[test]
fn speed_scales_angle() {
    let mut c = OrbitController::new();
    c.set_speed(2 * UNIT);
    c.update(&sample(true, UNIT / 10, 0, 0));
    assert_eq!(c.yaw, UNIT / 5);
}

/// Truncating scaling: a negative delta rounds toward zero, mirroring the
/// positive side.
#[test]
fn negative_delta_rounds_toward_zero() {
    let mut c = OrbitController::new();
    c.set_speed(3);
    c.update(&sample(true, 1, -1, 0));
    // 3 * 1 / UNIT and 3 * -1 / UNIT both round to zero.
    assert_eq!(c.yaw, 0);
    assert_eq!(c.pitch, 0);
}
