//! Configuration: the settings types and the shipped defaults.

pub mod defaults;
pub mod settings;

pub use settings::Config;
