//! A device-independent core for a small rendering framework: registries of
//! pipelines and surfaces, buffers and bind groups, materials and meshes, and
//! the per-frame protocol. The core decides and records; whoever owns the
//! graphics device carries the recorded commands out.

pub mod app;
pub mod context;
pub mod event_loop;
pub mod prelude;
pub mod render;
pub mod utils;
pub mod window;
