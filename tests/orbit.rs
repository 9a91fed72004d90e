use camera_orbit::orbit::{
    clamp_pitch, fits_orbit, look_delta, orbit, orbit_delta, roll_impulse, rotate, EulerAngles,
    MouseMotion, OrbitDelta, OrbitInput,
};
use camera_orbit::settings::{CameraSettings, DEFAULT_PITCH_LIMIT};

fn input(x: i32, y: i32, left: bool, right: bool, elapsed_micros: u32) -> OrbitInput {
    OrbitInput {
        motion: MouseMotion { x, y },
        left_pressed: left,
        right_pressed: right,
        elapsed_micros,
    }
}

fn angles(yaw: i64, pitch: i64, roll: i64) -> EulerAngles {
    EulerAngles { yaw, pitch, roll }
}

#[test]
fn default_settings() {
    let s = CameraSettings::default();
    assert_eq!(s.orbit_distance, 20_000_000);
    assert_eq!(s.pitch_speed, 3_000);
    assert_eq!(s.yaw_speed, 4_000);
    assert_eq!(s.roll_speed, 1_000);
    assert_eq!(s.pitch_range.start, -1_560_796_327);
    assert_eq!(s.pitch_range.end, 1_560_796_327);
    assert!(s.is_valid());
}

#[test]
fn settings_validity() {
    let mut s = CameraSettings::default();
    s.pitch_range = 5..5;
    assert!(!s.is_valid());
    s.pitch_range = 6..5;
    assert!(!s.is_valid());
    s.pitch_range = -1_570_796_327..0;
    assert!(!s.is_valid());
    s.pitch_range = -1_570_796_326..1_570_796_326;
    assert!(s.is_valid());
}

#[test]
fn pitch_drag_scenario() {
    // 0.003 rad per pixel, 100 pixels down: pitch turns by -0.3 rad.
    let s = CameraSettings::default();
    let d = orbit_delta(&s, input(0, 100_000, true, false, 16_000));
    assert_eq!(d, OrbitDelta { yaw: 0, pitch: -300_000_000, roll: 0 });
    let r = orbit(&s, input(0, 100_000, true, false, 16_000), angles(0, 200_000_000, 0));
    assert_eq!(r, angles(0, -100_000_000, 0));
    // Near the lower bound the turned pitch is clamped.
    let r = orbit(&s, input(0, 100_000, true, false, 16_000), angles(0, -1_400_000_000, 0));
    assert_eq!(r.pitch, -DEFAULT_PITCH_LIMIT);
}

#[test]
fn roll_hold_scenario() {
    // 1 rad per second for half a second: roll grows by 0.5 rad.
    let s = CameraSettings::default();
    let r = orbit(&s, input(0, 0, false, true, 500_000), angles(0, 0, 250_000_000));
    assert_eq!(r, angles(0, 0, 750_000_000));
}

#[test]
fn pitch_stays_in_range_for_huge_drags() {
    let s = CameraSettings::default();
    let up = orbit(&s, input(0, i32::MIN, true, false, 0), angles(0, 0, 0));
    assert_eq!(up.pitch, DEFAULT_PITCH_LIMIT);
    let down = orbit(&s, input(0, i32::MAX, true, false, 0), angles(0, 0, 0));
    assert_eq!(down.pitch, -DEFAULT_PITCH_LIMIT);
    let mut fast = CameraSettings::default();
    fast.pitch_speed = i32::MIN;
    let r = orbit(&fast, input(0, i32::MIN, true, false, 0), angles(0, i64::MIN, 0));
    assert_eq!(r.pitch, -DEFAULT_PITCH_LIMIT);
    let r = orbit(&fast, input(0, i32::MIN, true, false, 0), angles(0, i64::MAX, 0));
    assert_eq!(r.pitch, DEFAULT_PITCH_LIMIT);
}

#[test]
fn still_input_keeps_orientation() {
    let s = CameraSettings::default();
    let cur = angles(123_456, -567_000_000, -3_000_000_000);
    assert_eq!(orbit(&s, input(0, 0, false, false, 16_000), cur), cur);
    // Motion without the left button does not turn anything either.
    assert_eq!(orbit(&s, input(40_000, -7_000, false, false, 16_000), cur), cur);
}

#[test]
fn drag_turns_yaw_and_pitch_exactly() {
    let s = CameraSettings::default();
    let cur = angles(1_000, 2_000, 3_000);
    let r = orbit(&s, input(5_000, -2_000, true, false, 16_000), cur);
    assert_eq!(r.yaw, 1_000 - 5_000 * 4_000);
    assert_eq!(r.pitch, 2_000 + 2_000 * 3_000);
    assert_eq!(r.roll, 3_000);
    // The elapsed time plays no part in yaw and pitch.
    let slow = orbit(&s, input(5_000, -2_000, true, false, 1_000_000), cur);
    assert_eq!((slow.yaw, slow.pitch), (r.yaw, r.pitch));
}

#[test]
fn roll_ignores_motion() {
    let s = CameraSettings::default();
    let cur = angles(0, 0, 0);
    let a = orbit(&s, input(0, 0, false, true, 20_000), cur);
    let b = orbit(&s, input(9_000, 9_000, true, true, 20_000), cur);
    assert_eq!(a.roll, 20_000_000);
    assert_eq!(a.roll, b.roll);
}

#[test]
fn look_delta_reverses_drag() {
    assert_eq!(look_delta(input(3, -4, true, false, 0)), (-3, 4));
    assert_eq!(look_delta(input(3, -4, false, true, 0)), (0, 0));
    assert_eq!(
        look_delta(input(i32::MIN, i32::MIN, true, false, 0)),
        (2_147_483_648, 2_147_483_648)
    );
}

#[test]
fn roll_impulse_is_unit() {
    assert_eq!(roll_impulse(input(0, 0, false, true, 0)), 1);
    assert_eq!(roll_impulse(input(0, 0, true, false, 0)), 0);
}

#[test]
fn largest_roll_turn() {
    let mut s = CameraSettings::default();
    s.roll_speed = i32::MIN;
    let d = orbit_delta(&s, input(0, 0, false, true, u32::MAX));
    assert_eq!(d.roll, i32::MIN as i64 * u32::MAX as i64);
}

#[test]
fn clamp_pitch_ends_included() {
    let range = -10..10;
    assert_eq!(clamp_pitch(0, 10, &range), 10);
    assert_eq!(clamp_pitch(0, 11, &range), 10);
    assert_eq!(clamp_pitch(0, -10, &range), -10);
    assert_eq!(clamp_pitch(-5, -6, &range), -10);
    assert_eq!(clamp_pitch(3, 4, &range), 7);
    assert_eq!(clamp_pitch(i64::MAX, i64::MAX, &range), 10);
}

#[test]
fn fits_orbit_at_the_limits() {
    let s = CameraSettings::default();
    let drag = input(-1, 0, true, false, 0);
    assert!(fits_orbit(&s, drag, angles(i64::MAX - 4_000, 0, 0)));
    assert!(!fits_orbit(&s, drag, angles(i64::MAX - 3_999, 0, 0)));
    let hold = input(0, 0, false, true, 1);
    assert!(fits_orbit(&s, hold, angles(0, 0, i64::MAX - 1_000)));
    assert!(!fits_orbit(&s, hold, angles(0, 0, i64::MAX - 999)));
    assert!(fits_orbit(&s, input(0, 0, false, false, 0), angles(i64::MAX, i64::MIN, i64::MAX)));
}

#[test]
fn rotate_spins_one_radian_per_second() {
    let r = rotate(angles(10, 20, 30), 250_000);
    assert_eq!(r, angles(250_000_010, 20, 30));
    assert_eq!(rotate(angles(10, 20, 30), 0), angles(10, 20, 30));
}
