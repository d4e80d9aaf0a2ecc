//! What an application needs first.

pub use crate::app::{AppConfig, CatApp, LoopType};
pub use crate::context::AppContext;
pub use crate::render::color::Color;
pub use crate::render::surface::SurfaceId;
pub use crate::window::{CatWindow, PhysicalSize, Window, WindowId};
