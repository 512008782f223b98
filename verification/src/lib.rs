//! Windex: grid snapping, hotkey grammar, keyboard tracking and text rendering
//! for a menu-bar window manager, with the decisions proved against their
//! contracts.

pub mod config;
pub mod control;
pub mod display;
pub mod hotkey;
pub mod layout;
pub mod menu;
pub mod startup;
pub mod text;
