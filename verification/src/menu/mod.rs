//! The menu bar item: the cheat sheet it opens and the actions it offers.

pub mod shortcuts;
pub mod tray;
