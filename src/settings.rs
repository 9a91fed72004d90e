//! Configuration of the orbit camera and the fixed-point units it is stated in.
use std::ops::Range;
use vstd::prelude::*;

verus! {

/// Angles are counted in nanoradians: this many make one radian.
pub const NANORADIANS_PER_RADIAN: i64 = 1_000_000_000;

/// The least whole number of nanoradians that is not below a quarter turn
/// (pi / 2 rad); every angle strictly inside the quarter turn is below it.
pub const QUARTER_TURN_CEIL: i64 = 1_570_796_327;

/// Mouse motion is counted in thousandths of a pixel.
pub const MOTION_UNITS_PER_PIXEL: i64 = 1000;

/// Lengths are counted in millionths of a world unit.
pub const LENGTH_UNITS_PER_WORLD_UNIT: i64 = 1_000_000;

/// How far pitch may go either way by default: a hundredth of a radian short
/// of straight up or down, which keeps the camera clear of the poles.
pub const DEFAULT_PITCH_LIMIT: i64 = 1_560_796_327;

/// Settings of the orbit camera, fixed once the camera is set up.
#[derive(Debug)]
pub struct CameraSettings {
    /// Distance from the orbit target to the camera, in length units.
    pub orbit_distance: u64,
    /// Pitch change per unit of vertical mouse motion, in nanoradians.
    pub pitch_speed: i32,
    /// Pitch is clamped to this range, both ends included, in nanoradians.
    pub pitch_range: Range<i64>,
    /// Roll change per microsecond of a held right button, in nanoradians.
    pub roll_speed: i32,
    /// Yaw change per unit of horizontal mouse motion, in nanoradians.
    pub yaw_speed: i32,
}

impl CameraSettings {
    /// The pitch range is non-empty and lies strictly inside a quarter turn
    /// either side of level.
    pub open spec fn wf(&self) -> bool {
        -QUARTER_TURN_CEIL < self.pitch_range.start < self.pitch_range.end < QUARTER_TURN_CEIL
    }

    /// Tells whether these settings are well formed.
    pub fn is_valid(&self) -> (r: bool)
        ensures
            r == self.wf(),
    {
        -QUARTER_TURN_CEIL < self.pitch_range.start && self.pitch_range.start < self.pitch_range.end
            && self.pitch_range.end < QUARTER_TURN_CEIL
    }
}

impl Default for CameraSettings {
    /// An orbit of 20 world units; 0.003 rad of pitch and 0.004 rad of yaw per
    /// pixel of drag; 1 rad of roll per second of a held button; pitch within
    /// a hundredth of a radian of straight up or down.
    fn default() -> (s: Self)
        ensures
            s.orbit_distance == 20 * LENGTH_UNITS_PER_WORLD_UNIT,
            s.pitch_speed == 3_000,
            s.yaw_speed == 4_000,
            s.roll_speed == 1_000,
            s.pitch_range.start == -DEFAULT_PITCH_LIMIT,
            s.pitch_range.end == DEFAULT_PITCH_LIMIT,
            s.wf(),
    {
        CameraSettings {
            orbit_distance: 20_000_000,
            pitch_speed: 3_000,
            pitch_range: Range { start: -DEFAULT_PITCH_LIMIT, end: DEFAULT_PITCH_LIMIT },
            roll_speed: 1_000,
            yaw_speed: 4_000,
        }
    }
}

} // verus!
