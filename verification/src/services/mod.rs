//! The operations of the authentication core, each over the store.

pub mod admin_service;
pub mod auth_service;
pub mod avatar;
pub mod user_service;
