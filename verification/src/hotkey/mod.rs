//! Hotkeys: the binding grammar, parsed bindings, and the keyboard tracker
//! that turns key events into layout actions.

pub mod keys;
pub mod binding;
pub mod manager;
