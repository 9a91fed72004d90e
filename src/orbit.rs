//! The per-frame orbit rule: mouse drag turns yaw and pitch, a held right
//! button turns roll at a steady rate, and pitch stays inside its range.
use crate::settings::CameraSettings;
use vstd::prelude::*;

verus! {

/// Mouse motion accumulated since the previous frame, in thousandths of a
/// pixel. It is a displacement over the whole frame, not a rate.
#[derive(Clone, Copy, Debug, PartialEq, Eq)]
pub struct MouseMotion {
    pub x: i32,
    pub y: i32,
}

/// What the orbit rule reads in one frame.
#[derive(Clone, Copy, Debug, PartialEq, Eq)]
pub struct OrbitInput {
    pub motion: MouseMotion,
    pub left_pressed: bool,
    pub right_pressed: bool,
    /// Time since the previous frame, in microseconds.
    pub elapsed_micros: u32,
}

/// An orientation as yaw (about the world's up axis), then pitch (about the
/// local right axis), then roll (about the local forward axis), in
/// nanoradians.
#[derive(Clone, Copy, Debug, PartialEq, Eq)]
pub struct EulerAngles {
    pub yaw: i64,
    pub pitch: i64,
    pub roll: i64,
}

/// How far one frame turns each angle, in nanoradians; pitch before clamping.
#[derive(Clone, Copy, Debug, PartialEq, Eq)]
pub struct OrbitDelta {
    pub yaw: i64,
    pub pitch: i64,
    pub roll: i64,
}

/// The horizontal part of the look delta: the drag reversed while the left
/// button is held, nothing otherwise.
pub open spec fn look_x(input: OrbitInput) -> int {
    if input.left_pressed {
        -input.motion.x
    } else {
        0
    }
}

/// The vertical part of the look delta.
pub open spec fn look_y(input: OrbitInput) -> int {
    if input.left_pressed {
        -input.motion.y
    } else {
        0
    }
}

/// Pitch turned by the drag; elapsed time plays no part.
pub open spec fn pitch_delta(s: CameraSettings, input: OrbitInput) -> int {
    look_y(input) * s.pitch_speed
}

/// Yaw turned by the drag; elapsed time plays no part.
pub open spec fn yaw_delta(s: CameraSettings, input: OrbitInput) -> int {
    look_x(input) * s.yaw_speed
}

/// Roll turned by a held right button: a unit impulse scaled by the roll
/// speed and the elapsed time.
pub open spec fn roll_delta(s: CameraSettings, input: OrbitInput) -> int {
    (if input.right_pressed {
        1int
    } else {
        0int
    }) * s.roll_speed * input.elapsed_micros
}

/// `v` brought inside `[lo, hi]`.
pub open spec fn clamp_int(v: int, lo: int, hi: int) -> int {
    if v < lo {
        lo
    } else if v > hi {
        hi
    } else {
        v
    }
}

/// Yaw after one frame of the orbit rule.
pub open spec fn orbited_yaw(s: CameraSettings, input: OrbitInput, current: EulerAngles) -> int {
    current.yaw + yaw_delta(s, input)
}

/// Pitch after one frame of the orbit rule: turned, then clamped.
pub open spec fn orbited_pitch(s: CameraSettings, input: OrbitInput, current: EulerAngles) -> int {
    clamp_int(current.pitch + pitch_delta(s, input), s.pitch_range.start as int, s.pitch_range.end as int)
}

/// Roll after one frame of the orbit rule, with no wrap-around.
pub open spec fn orbited_roll(s: CameraSettings, input: OrbitInput, current: EulerAngles) -> int {
    current.roll + roll_delta(s, input)
}

/// Yaw and roll after the frame fit the angle type.
pub open spec fn orbit_fits(s: CameraSettings, input: OrbitInput, current: EulerAngles) -> bool {
    &&& i64::MIN <= orbited_yaw(s, input, current) <= i64::MAX
    &&& i64::MIN <= orbited_roll(s, input, current) <= i64::MAX
}

/// The look delta of this frame, widened so that reversing any drag fits.
pub fn look_delta(input: OrbitInput) -> (r: (i64, i64))
    ensures
        r.0 == look_x(input),
        r.1 == look_y(input),
{
    if input.left_pressed {
        (-(input.motion.x as i64), -(input.motion.y as i64))
    } else {
        (0, 0)
    }
}

/// The roll impulse of this frame: one while the right button is held.
pub fn roll_impulse(input: OrbitInput) -> (r: i64)
    ensures
        r == (if input.right_pressed {
            1int
        } else {
            0int
        }),
{
    let mut delta_roll: i64 = 0;
    if input.right_pressed {
        delta_roll += 1;
    }
    delta_roll
}

/// The turn of each angle that this frame's input asks for.
pub fn orbit_delta(settings: &CameraSettings, input: OrbitInput) -> (r: OrbitDelta)
    ensures
        r.yaw == yaw_delta(*settings, input),
        r.pitch == pitch_delta(*settings, input),
        r.roll == roll_delta(*settings, input),
{
    let (dx, dy) = look_delta(input);
    let impulse = roll_impulse(input);
    let ps = settings.pitch_speed as i64;
    let ys = settings.yaw_speed as i64;
    let rs = settings.roll_speed as i64;
    let t = input.elapsed_micros as i64;
    assert(-0x4000_0000_0000_0000 <= dy * ps <= 0x4000_0000_0000_0000) by (nonlinear_arith)
        requires
            -0x8000_0000 <= ps < 0x8000_0000,
            -0x8000_0000 <= dy <= 0x8000_0000,
    ;
    assert(-0x4000_0000_0000_0000 <= dx * ys <= 0x4000_0000_0000_0000) by (nonlinear_arith)
        requires
            -0x8000_0000 <= ys < 0x8000_0000,
            -0x8000_0000 <= dx <= 0x8000_0000,
    ;
    assert(-0x8000_0000_0000_0000 < rs * t < 0x8000_0000_0000_0000) by (nonlinear_arith)
        requires
            -0x8000_0000 <= rs < 0x8000_0000,
            0 <= t < 0x1_0000_0000,
    ;
    let delta_pitch = dy * ps;
    let delta_yaw = dx * ys;
    let delta_roll = impulse * (rs * t);
    assert(impulse * (rs * t) == impulse * rs * t) by (nonlinear_arith);
    OrbitDelta { yaw: delta_yaw, pitch: delta_pitch, roll: delta_roll }
}

/// Turns `pitch` by `delta` and clamps the result to `range`, both ends
/// included. The sum is taken wide, so no turn is too large.
pub fn clamp_pitch(pitch: i64, delta: i64, range: &std::ops::Range<i64>) -> (r: i64)
    requires
        range.start <= range.end,
    ensures
        r == clamp_int(pitch + delta, range.start as int, range.end as int),
        range.start <= r <= range.end,
{
    let turned: i128 = pitch as i128 + delta as i128;
    if turned < range.start as i128 {
        range.start
    } else if turned > range.end as i128 {
        range.end
    } else {
        turned as i64
    }
}

/// Tells whether one frame of the orbit rule keeps yaw and roll within the
/// angle type.
pub fn fits_orbit(settings: &CameraSettings, input: OrbitInput, current: EulerAngles) -> (r: bool)
    ensures
        r == orbit_fits(*settings, input, current),
{
    let delta = orbit_delta(settings, input);
    let yaw = current.yaw as i128 + delta.yaw as i128;
    let roll = current.roll as i128 + delta.roll as i128;
    i64::MIN as i128 <= yaw && yaw <= i64::MAX as i128 && i64::MIN as i128 <= roll && roll
        <= i64::MAX as i128
}

/// One frame of the orbit rule. The drag turns yaw and pitch by a full
/// frame's displacement, whatever the elapsed time; a held right button
/// turns roll at the roll speed for the elapsed time; pitch is clamped to its
/// range. The angles are read in and written back in yaw, pitch, roll order.
pub fn orbit(settings: &CameraSettings, input: OrbitInput, current: EulerAngles) -> (r: EulerAngles)
    requires
        settings.wf(),
        orbit_fits(*settings, input, current),
    ensures
        r.yaw == orbited_yaw(*settings, input, current),
        r.pitch == orbited_pitch(*settings, input, current),
        r.roll == orbited_roll(*settings, input, current),
        settings.pitch_range.start <= r.pitch <= settings.pitch_range.end,
{
    let delta = orbit_delta(settings, input);
    let pitch = clamp_pitch(current.pitch, delta.pitch, &settings.pitch_range);
    let roll = current.roll + delta.roll;
    let yaw = current.yaw + delta.yaw;
    EulerAngles { yaw, pitch, roll }
}

/// Yaw speed of the turning cube: one radian per second, that is 1000
/// nanoradians per microsecond.
pub const SPIN_PER_MICRO: i64 = 1000;

/// One frame of the cube's steady spin about its yaw axis; pitch and roll are
/// kept.
pub fn rotate(current: EulerAngles, elapsed_micros: u32) -> (r: EulerAngles)
    requires
        current.yaw + SPIN_PER_MICRO * elapsed_micros <= i64::MAX,
    ensures
        r.yaw == current.yaw + SPIN_PER_MICRO * elapsed_micros,
        r.pitch == current.pitch,
        r.roll == current.roll,
{
    EulerAngles { yaw: current.yaw + SPIN_PER_MICRO * elapsed_micros as i64, ..current }
}

} // verus!
