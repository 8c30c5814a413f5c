//! The data of the authentication core: users, token claims, stored
//! refresh-token records, requests and response envelopes.

pub mod auth;
pub mod response;
pub mod user;
