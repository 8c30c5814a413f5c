//! Tokens, password hashing, identifiers, the clock and input validation.

pub mod clock;
pub mod ident;
pub mod jwt;
pub mod password;
pub mod validation;
