//! Verified core of a small Vulkan game engine: settings, input state, scene
//! filters, resource name registries and the integer decisions of the renderer.

pub mod settings;
pub mod input;
pub mod resources;
pub mod render;
pub mod scene;
pub mod engine;
