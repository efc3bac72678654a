//! Keyboard and mouse state, and the control of the input polling loop.

pub mod keymap;
pub mod control;
