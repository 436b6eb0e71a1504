//! Render-state logic of a small real-time 3D scene: the camera controller,
//! the per-frame update and draw order, surface resizing, the GPU vertex and
//! pipeline layouts and texture upload plans.
//!
//! Everything here works on plain values; the GPU session, the window and the
//! matrix arithmetic live with the caller.

pub mod constants;
pub mod event;
pub mod camera;
pub mod simple_pipeline;
pub mod state;
pub mod vertex;
pub mod model_matrix;
pub mod bind_group;
pub mod texture;
pub mod light;
