//! The guard in front of protected operations.

pub mod auth;
