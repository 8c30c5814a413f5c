//! A credential-and-session authentication core.
//!
//! Users register with an email and a password, log in, and are handed a
//! short-lived access token and a longer-lived refresh token. The refresh
//! token is exchanged for a new pair of tokens, once; its hash is kept on
//! record so that a logout, a rotation or the deletion of the account
//! revokes it at once.
//!
//! - [`database`]: the store of users and refresh-token records.
//! - [`utils`]: tokens, password hashing, identifiers, the clock, validation.
//! - [`services`]: registration, login, logout, rotation; profiles; the
//!   admin dashboard.
//! - [`middleware`]: the guard in front of protected operations.
//! - [`handlers`]: the operations as the transport sees them.
//! - [`models`], [`error`], [`config`]: data, errors and settings.
//! - [`seqs`], [`ranking`]: the vocabulary of the contracts.

use vstd::prelude::*;

pub mod config;
pub mod database;
pub mod error;
pub mod handlers;
pub mod middleware;
pub mod models;
pub mod ranking;
pub mod seqs;
pub mod services;
pub mod utils;

use crate::config::settings::Settings;
use crate::database::Database;
use crate::utils::jwt::JwtKeys;

verus! {

/// The state of a running application: the store, the signing secrets and
/// the settings. It is handed to every operation that needs it; nothing is
/// global.
pub struct AppState {
    pub db: Database,
    pub jwt_keys: JwtKeys,
    pub settings: Settings,
}

} // verus!
