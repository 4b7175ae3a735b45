//! The control core of an interactive vector-scene viewer: integer geometry,
//! the camera, the per-frame control decisions, the widget hit-testing, and the
//! message protocol between the control loop and the scene worker.

pub mod camera;
pub mod demo_app;
pub mod event;
pub mod geometry;
pub mod options;
pub mod pipeline;
pub mod scene_thread;
pub mod ui;
