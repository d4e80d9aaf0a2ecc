//! Helpers around the core.

pub mod timer;
