//! Tests of the two boundary operations: validation outcomes, capture-mode
//! pass-through, and exact accelerated outputs.
//!
//! Displacements are in billionths of a pixel (the library's fixed-point
//! unit): `0.00002` pixels is `20_000`, `1.00004` pixels is `1_000_040_000`.

use motion_accel::{MotionAccelerator, Offset, RET_ERR, RET_OK};

#[test]
fn test_handle_motion_accelerate_normal() {
    let offset = Offset { dx: 20_000, dy: 1_000_040_000 };
    let mut abs_x: i64 = 0;
    let mut abs_y: i64 = 0;
    let a = MotionAccelerator::new();
    let ret = a.handle_motion_accelerate(&offset, false, &mut abs_x, &mut abs_y, 2);
    assert_eq!(ret, RET_OK);
}

#[test]
fn test_handle_motion_accelerate_mini_limit() {
    let offset = Offset { dx: 10, dy: 20 };
    let mut abs_x: i64 = 0;
    let mut abs_y: i64 = 0;
    let a = MotionAccelerator::new();
    let ret = a.handle_motion_accelerate(&offset, false, &mut abs_x, &mut abs_y, 2);
    assert_eq!(ret, RET_ERR);
}

#[test]
fn test_handle_motion_accelerate_capture_mode_false() {
    let offset = Offset { dx: 20_000, dy: 1_000_040_000 };
    let mut abs_x: i64 = 0;
    let mut abs_y: i64 = 0;
    let a = MotionAccelerator::new();
    let ret = a.handle_motion_accelerate(&offset, true, &mut abs_x, &mut abs_y, 2);
    assert_eq!(ret, RET_OK);
    assert_eq!(abs_x, 0);
    assert_eq!(abs_y, 0);
}

#[test]
fn test_handle_motion_accelerate_normal_touchpad() {
    let offset = Offset { dx: 20_000, dy: 1_000_040_000 };
    let mut abs_x: i64 = 0;
    let mut abs_y: i64 = 0;
    let mut a = MotionAccelerator::new();
    let ret = a.handle_motion_accelerate_touchpad(&offset, false, &mut abs_x, &mut abs_y, 2);
    assert_eq!(ret, RET_OK);
}

#[test]
fn test_handle_motion_accelerate_mini_limit_touchpad() {
    let offset = Offset { dx: 10, dy: 20 };
    let mut abs_x: i64 = 0;
    let mut abs_y: i64 = 0;
    let mut a = MotionAccelerator::new();
    let ret = a.handle_motion_accelerate_touchpad(&offset, false, &mut abs_x, &mut abs_y, 2);
    assert_eq!(ret, RET_ERR);
}

#[test]
fn test_handle_motion_accelerate_capture_mode_false_touchpad() {
    let offset = Offset { dx: 20_000, dy: 1_000_040_000 };
    let mut abs_x: i64 = 0;
    let mut abs_y: i64 = 0;
    let mut a = MotionAccelerator::new();
    let ret = a.handle_motion_accelerate_touchpad(&offset, true, &mut abs_x, &mut abs_y, 2);
    assert_eq!(ret, RET_OK);
    assert_eq!(abs_x, 0);
    assert_eq!(abs_y, 0);
}

#[test]
fn mouse_normal_exact_output() {
    // vin = 0.50003 px, ceil = 1 <= 8: first segment of tier 2, slope 0.32,
    // intercept 0. Output per axis is delta * 1.32 exactly.
    let offset = Offset { dx: 20_000, dy: 1_000_040_000 };
    let mut abs_x: i64 = 0;
    let mut abs_y: i64 = 0;
    let a = MotionAccelerator::new();
    let ret = a.handle_motion_accelerate(&offset, false, &mut abs_x, &mut abs_y, 2);
    assert_eq!(ret, RET_OK);
    assert_eq!(abs_x, 26_400);
    assert_eq!(abs_y, 1_320_052_800);
}

#[test]
fn mouse_second_segment_exact_output() {
    // dx = 20 px, dy = 10 px: vin = 15, in (8, 32]: second segment of tier 2,
    // slope 0.60, intercept -2.24.
    let offset = Offset { dx: 20_000_000_000, dy: 10_000_000_000 };
    let mut abs_x: i64 = 0;
    let mut abs_y: i64 = 0;
    let a = MotionAccelerator::new();
    let ret = a.handle_motion_accelerate(&offset, false, &mut abs_x, &mut abs_y, 2);
    assert_eq!(ret, RET_OK);
    assert_eq!(abs_x, 29_013_333_333);
    assert_eq!(abs_y, 14_506_666_666);
}

#[test]
fn mouse_extrapolation_beyond_last_threshold() {
    // dx = 300 px: vin = 150 > 128, the overflow segment of tier 1 applies
    // (slope 0.56, intercept -9.44).
    let offset = Offset { dx: 300_000_000_000, dy: 0 };
    let mut abs_x: i64 = 0;
    let mut abs_y: i64 = 0;
    let a = MotionAccelerator::new();
    let ret = a.handle_motion_accelerate(&offset, false, &mut abs_x, &mut abs_y, 1);
    assert_eq!(ret, RET_OK);
    assert_eq!(abs_x, 449_120_000_000);
    assert_eq!(abs_y, 0);
}

#[test]
fn mouse_magnitude_at_threshold_is_inclusive() {
    // dx = dy = 8 px: vin = 8, exactly the first threshold: the first
    // segment applies (slope 0.32, intercept 0), not the second.
    let offset = Offset { dx: 8_000_000_000, dy: 8_000_000_000 };
    let mut abs_x: i64 = 0;
    let mut abs_y: i64 = 0;
    let a = MotionAccelerator::new();
    let ret = a.handle_motion_accelerate(&offset, false, &mut abs_x, &mut abs_y, 2);
    assert_eq!(ret, RET_OK);
    assert_eq!(abs_x, 10_560_000_000);
    assert_eq!(abs_y, 10_560_000_000);
}

#[test]
fn mouse_magnitude_just_above_threshold_moves_on() {
    // Two billionths of a pixel past vin = 8: ceil rounds to 9 and the
    // second segment (slope 0.60, intercept -2.24) applies.
    let offset = Offset { dx: 8_000_000_002, dy: 8_000_000_000 };
    let mut abs_x: i64 = 0;
    let mut abs_y: i64 = 0;
    let a = MotionAccelerator::new();
    let ret = a.handle_motion_accelerate(&offset, false, &mut abs_x, &mut abs_y, 2);
    assert_eq!(ret, RET_OK);
    assert_eq!(abs_x, 10_560_000_002);
    assert_eq!(abs_y, 10_560_000_000);
}

#[test]
fn mouse_epsilon_boundary() {
    // vin is exactly 1e-6 px: not below the epsilon, so the call succeeds.
    let at_eps = Offset { dx: 1_000, dy: 1_000 };
    let mut abs_x: i64 = 0;
    let mut abs_y: i64 = 0;
    let a = MotionAccelerator::new();
    assert_eq!(a.handle_motion_accelerate(&at_eps, false, &mut abs_x, &mut abs_y, 2), RET_OK);
    // One billionth less: below the epsilon, the call fails.
    let under = Offset { dx: 999, dy: 1_000 };
    assert_eq!(a.handle_motion_accelerate(&under, false, &mut abs_x, &mut abs_y, 2), RET_ERR);
}

#[test]
fn touchpad_normal_exact_output_and_carry() {
    // vin = 1.00005 px <= 1.27: first segment of tier 2, slope 0.19,
    // intercept 0. Both outputs truncate to zero pixels; the sub-pixel
    // remainders stay in the carry.
    let offset = Offset { dx: 20_000, dy: 1_000_040_000 };
    let mut abs_x: i64 = 0;
    let mut abs_y: i64 = 0;
    let mut a = MotionAccelerator::new();
    let ret = a.handle_motion_accelerate_touchpad(&offset, false, &mut abs_x, &mut abs_y, 2);
    assert_eq!(ret, RET_OK);
    assert_eq!(abs_x, 0);
    assert_eq!(abs_y, 0);
    assert_eq!(a.carry.carry_x, 3_800);
    assert_eq!(a.carry.carry_y, 190_007_600);
}

#[test]
fn touchpad_carry_accumulates_into_whole_pixels() {
    // dx = 10 px at tier 1: each call owes 2.36 px. The first two calls
    // output 2 px each and leave 0.36 then 0.72 px in the carry; the third
    // call's raw value reaches 3.08 px, so the accumulated remainder comes
    // out as an extra whole pixel. Total 7 px against the ideal 7.08 px.
    let offset = Offset { dx: 10_000_000_000, dy: 0 };
    let mut abs_x: i64 = 0;
    let mut abs_y: i64 = 0;
    let mut a = MotionAccelerator::new();
    assert_eq!(a.handle_motion_accelerate_touchpad(&offset, false, &mut abs_x, &mut abs_y, 1), RET_OK);
    assert_eq!(abs_x, 2_000_000_000);
    assert_eq!(a.carry.carry_x, 360_000_000);
    assert_eq!(a.handle_motion_accelerate_touchpad(&offset, false, &mut abs_x, &mut abs_y, 1), RET_OK);
    assert_eq!(abs_x, 4_000_000_000);
    assert_eq!(a.carry.carry_x, 720_000_000);
    assert_eq!(a.handle_motion_accelerate_touchpad(&offset, false, &mut abs_x, &mut abs_y, 1), RET_OK);
    assert_eq!(abs_x, 7_000_000_000);
    assert_eq!(a.carry.carry_x, 80_000_000);
    assert!(a.carry.carry_x.abs() < 1_000_000_000);
    assert_eq!(a.carry.carry_y, 0);
}

#[test]
fn touchpad_long_run_stays_within_one_pixel_of_ideal() {
    // dx = 2.56 px at tier 1: each call owes exactly 0.5 px, so outputs
    // alternate 0 and 1 px and the running total never drifts more than one
    // pixel from the un-truncated ideal of 0.5 px per call.
    let offset = Offset { dx: 2_560_000_000, dy: 0 };
    let mut abs_x: i64 = 0;
    let mut abs_y: i64 = 0;
    let mut a = MotionAccelerator::new();
    for k in 1..=10i64 {
        assert_eq!(
            a.handle_motion_accelerate_touchpad(&offset, false, &mut abs_x, &mut abs_y, 1),
            RET_OK
        );
        let ideal_units = k * 500_000_000;
        assert!((abs_x - ideal_units).abs() < 1_000_000_000);
    }
    assert_eq!(abs_x, 5_000_000_000);
    assert_eq!(a.carry.carry_x, 0);
}

#[test]
fn touchpad_whole_pixel_output_never_drifts() {
    // dx = 173 px at tier 1 lies beyond the last threshold (81.46), so the
    // overflow segment applies (slope 1.03, intercept -13.19) and each
    // call's output is exactly 165 whole pixels: the carry stays zero and
    // n calls advance the coordinate by exactly n * 165 px.
    let offset = Offset { dx: 173_000_000_000, dy: 0 };
    let mut abs_x: i64 = 0;
    let mut abs_y: i64 = 0;
    let mut a = MotionAccelerator::new();
    for k in 1..=4i64 {
        assert_eq!(
            a.handle_motion_accelerate_touchpad(&offset, false, &mut abs_x, &mut abs_y, 1),
            RET_OK
        );
        assert_eq!(abs_x, k * 165_000_000_000);
        assert_eq!(a.carry.carry_x, 0);
    }
}

#[test]
fn touchpad_negative_displacement() {
    // Truncation is toward zero and the carry keeps the sign of the motion.
    let offset = Offset { dx: -10_000_000_000, dy: 0 };
    let mut abs_x: i64 = 0;
    let mut abs_y: i64 = 0;
    let mut a = MotionAccelerator::new();
    assert_eq!(a.handle_motion_accelerate_touchpad(&offset, false, &mut abs_x, &mut abs_y, 1), RET_OK);
    assert_eq!(abs_x, -2_000_000_000);
    assert_eq!(a.carry.carry_x, -360_000_000);
}

#[test]
fn touchpad_capture_mode_keeps_carry() {
    let offset = Offset { dx: 10_000_000_000, dy: 0 };
    let mut abs_x: i64 = 0;
    let mut abs_y: i64 = 0;
    let mut a = MotionAccelerator::new();
    assert_eq!(a.handle_motion_accelerate_touchpad(&offset, false, &mut abs_x, &mut abs_y, 1), RET_OK);
    assert_eq!(a.carry.carry_x, 360_000_000);
    // A capture-mode call computes the gain but touches neither the
    // coordinates nor the carry.
    assert_eq!(a.handle_motion_accelerate_touchpad(&offset, true, &mut abs_x, &mut abs_y, 1), RET_OK);
    assert_eq!(abs_x, 2_000_000_000);
    assert_eq!(a.carry.carry_x, 360_000_000);
}
