//! What holds of every frame of the orbit rule, whatever its input.
use crate::orbit::{
    clamp_int, orbited_pitch, orbited_roll, orbited_yaw, pitch_delta, EulerAngles, MouseMotion,
    OrbitInput,
};
use crate::settings::CameraSettings;
use vstd::prelude::*;

verus! {

/// Whatever the drag, however large, pitch after a frame lies inside the
/// configured range, both ends included.
pub proof fn lemma_pitch_stays_in_range(s: CameraSettings, input: OrbitInput, current: EulerAngles)
    requires
        s.wf(),
    ensures
        s.pitch_range.start <= orbited_pitch(s, input, current) <= s.pitch_range.end,
{
}

/// With no drag and no button held, a frame leaves the orientation as it
/// was, provided its pitch already lies inside the configured range.
pub proof fn lemma_still_input_keeps_orientation(
    s: CameraSettings,
    input: OrbitInput,
    current: EulerAngles,
)
    requires
        s.wf(),
        input.motion == (MouseMotion { x: 0, y: 0 }),
        !input.left_pressed,
        !input.right_pressed,
        s.pitch_range.start <= current.pitch <= s.pitch_range.end,
    ensures
        orbited_yaw(s, input, current) == current.yaw,
        orbited_pitch(s, input, current) == current.pitch,
        orbited_roll(s, input, current) == current.roll,
{
    assert(0int * s.roll_speed * input.elapsed_micros == 0) by (nonlinear_arith);
}

/// While the left button is held, a drag of (dx, dy) turns yaw by exactly
/// -dx times the yaw speed and pitch by exactly -dy times the pitch speed
/// before clamping; pitch moves by exactly that much when the turned pitch
/// lies inside the range.
pub proof fn lemma_drag_turns_yaw_and_pitch(s: CameraSettings, input: OrbitInput, current: EulerAngles)
    requires
        input.left_pressed,
    ensures
        orbited_yaw(s, input, current) == current.yaw - input.motion.x * s.yaw_speed,
        pitch_delta(s, input) == -(input.motion.y * s.pitch_speed),
        orbited_pitch(s, input, current) == clamp_int(
            current.pitch - input.motion.y * s.pitch_speed,
            s.pitch_range.start as int,
            s.pitch_range.end as int,
        ),
        s.pitch_range.start <= current.pitch - input.motion.y * s.pitch_speed
            <= s.pitch_range.end ==> orbited_pitch(s, input, current) == current.pitch
            - input.motion.y * s.pitch_speed,
{
    let (dx, dy) = (input.motion.x as int, input.motion.y as int);
    let (ys, ps) = (s.yaw_speed as int, s.pitch_speed as int);
    assert((-dx) * ys == -(dx * ys)) by (nonlinear_arith);
    assert((-dy) * ps == -(dy * ps)) by (nonlinear_arith);
}

/// Yaw and pitch after a frame do not depend on the elapsed time: two inputs
/// with the same drag and left button give the same yaw and pitch.
pub proof fn lemma_drag_ignores_elapsed(
    s: CameraSettings,
    a: OrbitInput,
    b: OrbitInput,
    current: EulerAngles,
)
    requires
        a.motion == b.motion,
        a.left_pressed == b.left_pressed,
    ensures
        orbited_yaw(s, a, current) == orbited_yaw(s, b, current),
        orbited_pitch(s, a, current) == orbited_pitch(s, b, current),
{
}

/// While the right button is held for t microseconds, roll turns by exactly
/// the roll speed times t.
pub proof fn lemma_hold_turns_roll(s: CameraSettings, input: OrbitInput, current: EulerAngles)
    requires
        input.right_pressed,
    ensures
        orbited_roll(s, input, current) == current.roll + s.roll_speed * input.elapsed_micros,
{
    assert(1int * s.roll_speed * input.elapsed_micros == s.roll_speed * input.elapsed_micros)
        by (nonlinear_arith);
}

/// Roll after a frame does not depend on the mouse motion or the left
/// button: two inputs with the same right button and elapsed time give the
/// same roll.
pub proof fn lemma_roll_ignores_motion(
    s: CameraSettings,
    a: OrbitInput,
    b: OrbitInput,
    current: EulerAngles,
)
    requires
        a.right_pressed == b.right_pressed,
        a.elapsed_micros == b.elapsed_micros,
    ensures
        orbited_roll(s, a, current) == orbited_roll(s, b, current),
{
}

} // verus!
