//! The error taxonomy of the authentication core.
//!
//! Every failure of a service operation is one of six kinds. Each kind has one
//! fixed message and one fixed transport status, so that two failures of the
//! same kind can never be told apart by a caller.

use vstd::prelude::*;

verus! {

/// Why an operation of the authentication core failed.
#[derive(Clone, Copy, Debug, PartialEq, Eq, Structural)]
pub enum AuthError {
    /// A user with the requested email is already registered.
    AlreadyExists,
    /// Login failed: unknown email or wrong password, indistinguishably.
    InvalidCredentials,
    /// A password change presented the wrong current password.
    InvalidCurrentPassword,
    /// A token is malformed, wrongly signed, expired or revoked.
    InvalidToken,
    /// The user a request refers to is not in the store.
    NotFound,
    /// Signing, hashing or storage failed.
    Internal,
}

impl AuthError {
    /// The message shown to callers for this kind of error.
    pub open spec fn message_text(self) -> Seq<char> {
        match self {
            AuthError::AlreadyExists => "User with this email already exists"@,
            AuthError::InvalidCredentials => "Invalid credentials"@,
            AuthError::InvalidCurrentPassword => "Invalid current password"@,
            AuthError::InvalidToken => "Invalid token"@,
            AuthError::NotFound => "User not found"@,
            AuthError::Internal => "Internal server error"@,
        }
    }

    /// The transport status for this kind of error.
    pub open spec fn status_code(self) -> u16 {
        match self {
            AuthError::AlreadyExists => 409,
            AuthError::InvalidCredentials => 401,
            AuthError::InvalidCurrentPassword => 400,
            AuthError::InvalidToken => 401,
            AuthError::NotFound => 404,
            AuthError::Internal => 500,
        }
    }

    /// The message for this kind of error; it depends on the kind alone.
    pub fn message(&self) -> (text: String)
        ensures
            text@ == self.message_text(),
    {
        match self {
            AuthError::AlreadyExists => "User with this email already exists".to_string(),
            AuthError::InvalidCredentials => "Invalid credentials".to_string(),
            AuthError::InvalidCurrentPassword => "Invalid current password".to_string(),
            AuthError::InvalidToken => "Invalid token".to_string(),
            AuthError::NotFound => "User not found".to_string(),
            AuthError::Internal => "Internal server error".to_string(),
        }
    }

    /// The transport status for this kind of error: a total mapping over the
    /// kinds, never derived from a message.
    pub fn status(&self) -> (code: u16)
        ensures
            code == self.status_code(),
            400 <= code < 600,
    {
        match self {
            AuthError::AlreadyExists => 409,
            AuthError::InvalidCredentials => 401,
            AuthError::InvalidCurrentPassword => 400,
            AuthError::InvalidToken => 401,
            AuthError::NotFound => 404,
            AuthError::Internal => 500,
        }
    }
}

} // verus!
