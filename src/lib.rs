//! Camera, shape layers and frame planning for an instanced 2-D renderer.
pub mod units;
pub mod zoom;
pub mod camera;
pub mod transform;
pub mod layout;
pub mod shapes;
pub mod drawable;
pub mod scene;
pub mod control;
