//! The integer and naming decisions of the renderer.

pub mod passes;
pub mod pipeline;
pub mod builder;
pub mod images;
pub mod debug;
pub mod shader;
