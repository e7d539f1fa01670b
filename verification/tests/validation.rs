//! Tests of the validation rules through the `Result` API: each error
//! variant, the speed domain, and capture-mode pass-through.

use motion_accel::{AccelError, MotionAccelerator, Offset};

#[test]
fn below_epsilon_error_both_families() {
    let tiny = Offset { dx: 10, dy: 20 };
    let mut a = MotionAccelerator::new();
    assert_eq!(a.accelerate(&tiny, false, 2), Err(AccelError::BelowEpsilon));
    assert_eq!(a.accelerate_touchpad(&tiny, false, 2), Err(AccelError::BelowEpsilon));
}

#[test]
fn below_epsilon_wins_over_invalid_speed() {
    // Validation order matches the engine: the velocity check comes first.
    let tiny = Offset { dx: 10, dy: 20 };
    let mut a = MotionAccelerator::new();
    assert_eq!(a.accelerate(&tiny, false, 0), Err(AccelError::BelowEpsilon));
    assert_eq!(a.accelerate_touchpad(&tiny, false, 0), Err(AccelError::BelowEpsilon));
}

#[test]
fn invalid_speed_error_both_families() {
    let offset = Offset { dx: 20_000, dy: 1_000_040_000 };
    let mut a = MotionAccelerator::new();
    assert_eq!(a.accelerate(&offset, false, 0), Err(AccelError::InvalidSpeed));
    assert_eq!(a.accelerate(&offset, false, -3), Err(AccelError::InvalidSpeed));
    assert_eq!(a.accelerate(&offset, false, 12), Err(AccelError::InvalidSpeed));
    assert_eq!(a.accelerate_touchpad(&offset, false, 0), Err(AccelError::InvalidSpeed));
    assert_eq!(a.accelerate_touchpad(&offset, false, 12), Err(AccelError::InvalidSpeed));
}

#[test]
fn every_configured_speed_succeeds() {
    let offset = Offset { dx: 20_000, dy: 1_000_040_000 };
    let mut a = MotionAccelerator::new();
    for speed in 1..=11i32 {
        assert!(a.accelerate(&offset, false, speed).is_ok());
        assert!(a.accelerate_touchpad(&offset, false, speed).is_ok());
    }
}

#[test]
fn capture_mode_passes_input_through() {
    let offset = Offset { dx: 20_000, dy: 1_000_040_000 };
    let mut a = MotionAccelerator::new();
    assert_eq!(a.accelerate(&offset, true, 2), Ok((20_000, 1_000_040_000)));
    assert_eq!(a.accelerate_touchpad(&offset, true, 2), Ok((20_000, 1_000_040_000)));
    assert_eq!(a.carry.carry_x, 0);
    assert_eq!(a.carry.carry_y, 0);
}

#[test]
fn failed_call_leaves_coordinates_untouched() {
    let tiny = Offset { dx: 10, dy: 20 };
    let mut abs_x: i64 = 7;
    let mut abs_y: i64 = -9;
    let mut a = MotionAccelerator::new();
    assert_eq!(a.handle_motion_accelerate(&tiny, false, &mut abs_x, &mut abs_y, 2), -1);
    assert_eq!((abs_x, abs_y), (7, -9));
    assert_eq!(a.handle_motion_accelerate_touchpad(&tiny, false, &mut abs_x, &mut abs_y, 2), -1);
    assert_eq!((abs_x, abs_y), (7, -9));
    assert_eq!(a.carry.carry_x, 0);
}
