//! Layout actions and the grid cell each one snaps a window to.

pub mod action;
pub mod grid;
