//! Orientation core of a first-person camera and the scene container that
//! consumes it: commands turn a yaw/pitch state held in whole degrees, and
//! each frame reads that state once and lists the renderables in order.
pub mod camera;
pub mod render;

pub use camera::{
    clamp_pitch_exec, Axis, Camera, CameraKey, Motion, DEFAULT_ANGLE_STEP, DEFAULT_PITCH,
    DEFAULT_YAW, PITCH_LIMIT,
};
pub use render::{Frame, Render};
