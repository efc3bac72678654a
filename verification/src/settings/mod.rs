//! Engine and render settings.

pub mod render_settings;
pub mod engine_settings;
