//! The operations as the transport sees them: each takes what a request
//! carries and answers with a status and an envelope.

pub mod admin;
pub mod analytics;
pub mod auth;
pub mod reply;
pub mod user;
