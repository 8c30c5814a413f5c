//! Process-wide configuration.

pub mod settings;
