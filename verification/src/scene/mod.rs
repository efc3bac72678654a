//! Filtering the nodes of a scene by their flags and by the kind of their content,
//! and collecting the selected nodes of a scene tree.

pub mod sorting;
pub mod filter;
pub mod tree;
