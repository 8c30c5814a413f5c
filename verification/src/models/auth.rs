//! Requests and responses of the session operations, the claims that tokens
//! carry, and the stored record of an issued refresh token.

use vstd::prelude::*;
use crate::models::user::User;
use crate::models::user::UserView;

verus! {

/// A request to create an account.
#[derive(Debug)]
pub struct RegisterRequest {
    pub email: String,
    pub password: String,
    pub confirm_password: String,
    pub agree_to_terms: bool,
}

/// A request to open a session with an email and a password.
#[derive(Debug)]
pub struct LoginRequest {
    pub email: String,
    pub password: String,
    pub remember_me: bool,
}

/// What a successful registration, login or refresh hands back.
#[derive(Debug)]
pub struct AuthResponse {
    pub user: User,
    pub token: String,
    pub refresh_token: String,
    pub expires_in: i64,
}

/// The mathematical value of an [`AuthResponse`].
pub ghost struct AuthResponseView {
    pub user: UserView,
    pub token: Seq<char>,
    pub refresh_token: Seq<char>,
    pub expires_in: i64,
}

impl View for AuthResponse {
    type V = AuthResponseView;

    open spec fn view(&self) -> AuthResponseView {
        AuthResponseView {
            user: self.user@,
            token: self.token@,
            refresh_token: self.refresh_token@,
            expires_in: self.expires_in,
        }
    }
}

/// A request to exchange a refresh token for a new pair of tokens.
#[derive(Debug)]
pub struct RefreshRequest {
    pub refresh_token: String,
}

/// The claims of an access token: who the user is, which issue the token
/// comes from, and until when it is valid.
#[derive(Debug)]
pub struct Claims {
    /// The user's identifier, as text.
    pub sub: String,
    pub email: String,
    pub role: String,
    /// The identifier of the issue that made the token, as text. No two
    /// issues share one, so no two issues make the same token.
    pub jti: String,
    /// The second after which the token is no longer valid.
    pub exp: usize,
    /// The second at which the token was issued.
    pub iat: usize,
}

/// The mathematical value of [`Claims`].
pub ghost struct ClaimsView {
    pub sub: Seq<char>,
    pub email: Seq<char>,
    pub role: Seq<char>,
    pub jti: Seq<char>,
    pub exp: nat,
    pub iat: nat,
}

impl View for Claims {
    type V = ClaimsView;

    open spec fn view(&self) -> ClaimsView {
        ClaimsView {
            sub: self.sub@,
            email: self.email@,
            role: self.role@,
            jti: self.jti@,
            exp: self.exp as nat,
            iat: self.iat as nat,
        }
    }
}

/// The claims of a refresh token: the subject, the record that the token is
/// kept on, and until when it is valid.
#[derive(Debug)]
pub struct RefreshClaims {
    /// The user's identifier, as text.
    pub sub: String,
    /// The identifier of the token's record in the store, as text.
    pub jti: String,
    /// The second after which the token is no longer valid.
    pub exp: usize,
    /// The second at which the token was issued.
    pub iat: usize,
}

/// The mathematical value of [`RefreshClaims`].
pub ghost struct RefreshClaimsView {
    pub sub: Seq<char>,
    pub jti: Seq<char>,
    pub exp: nat,
    pub iat: nat,
}

impl View for RefreshClaims {
    type V = RefreshClaimsView;

    open spec fn view(&self) -> RefreshClaimsView {
        RefreshClaimsView {
            sub: self.sub@,
            jti: self.jti@,
            exp: self.exp as nat,
            iat: self.iat as nat,
        }
    }
}

/// The stored record of an issued refresh token. It holds a one-way hash of
/// the token, never the token itself.
#[derive(Debug)]
pub struct RefreshToken {
    pub id: u128,
    pub user_id: u128,
    pub token_hash: String,
    pub expires_at: u64,
    pub created_at: u64,
}

/// The mathematical value of a [`RefreshToken`] record.
pub ghost struct RefreshTokenView {
    pub id: u128,
    pub user_id: u128,
    pub token_hash: Seq<char>,
    pub expires_at: u64,
    pub created_at: u64,
}

impl View for RefreshToken {
    type V = RefreshTokenView;

    open spec fn view(&self) -> RefreshTokenView {
        RefreshTokenView {
            id: self.id,
            user_id: self.user_id,
            token_hash: self.token_hash@,
            expires_at: self.expires_at,
            created_at: self.created_at,
        }
    }
}

impl Clone for RefreshToken {
    fn clone(&self) -> (copy: Self)
        ensures
            copy == *self,
    {
        RefreshToken {
            id: self.id,
            user_id: self.user_id,
            token_hash: self.token_hash.clone(),
            expires_at: self.expires_at,
            created_at: self.created_at,
        }
    }
}

} // verus!
