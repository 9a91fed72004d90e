//! Orbit-camera control rules: how mouse drag, held buttons and elapsed time
//! turn a camera's yaw, pitch and roll, in fixed-point units.
pub mod laws;
pub mod orbit;
pub mod settings;
