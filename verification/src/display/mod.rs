//! Displays: which monitor a window is on, and where a move sends it.

pub mod manager;
