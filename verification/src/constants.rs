use vstd::prelude::*;

verus! {

/// Width of the window at start-up, in pixels.
pub const WIDTH: u32 = 1280;

/// Height of the window at start-up, in pixels.
pub const HEIGHT: u32 = 720;

/// Vertical field of view of the camera, in whole degrees.
pub const FOV_DEGREES: u32 = 90;

/// Angle by which the light turns about the vertical axis each frame, in
/// tenths of a degree.
pub const LIGHT_STEP_DECIDEGREES: u32 = 10;

/// Angle by which the object turns about the vertical axis each frame, in
/// tenths of a degree.
pub const OBJECT_STEP_DECIDEGREES: u32 = 2;

/// Vertex-stream slot that carries the per-instance transform records.
pub const INSTANCE_SLOT: u32 = 1;

} // verus!
