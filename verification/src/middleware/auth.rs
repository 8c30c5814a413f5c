//! The authentication guard: from an `Authorization` header to the user that
//! the request acts for, and the check of the admin role.

use vstd::prelude::*;
use crate::utils::clock::is_clock_value;
use crate::AppState;
use crate::database::Database;
use crate::database::DatabaseView;
use crate::models::user::User;
use crate::models::user::UserView;
use crate::utils::clock::now;
use crate::utils::ident::parse_id;
use crate::utils::ident::uuid_parsing;
use crate::utils::jwt::JwtKeys;
use crate::utils::jwt::JwtKeysView;
use crate::utils::jwt::access_verdict;
use crate::utils::jwt::authenticates;

verus! {

/// Why the guard turned a request away.
#[derive(Clone, Copy, Debug, PartialEq, Eq, Structural)]
pub enum Rejection {
    /// The request has no `Authorization` header that is text.
    MissingHeader,
    /// The header does not start with `Bearer `.
    InvalidFormat,
    /// The token is malformed, wrongly signed or expired.
    InvalidToken,
    /// The token's subject is not an identifier.
    InvalidUserId,
    /// The token's subject is not in the store.
    UserNotFound,
    /// The user is not an admin.
    AdminRequired,
}

impl Rejection {
    /// The transport status of a rejection: 403 where a known user lacks the
    /// role, 401 otherwise.
    pub open spec fn status_code(self) -> u16 {
        match self {
            Rejection::AdminRequired => 403,
            _ => 401,
        }
    }

    /// The message of a rejection.
    pub open spec fn message_text(self) -> Seq<char> {
        match self {
            Rejection::MissingHeader => "Missing authorization header"@,
            Rejection::InvalidFormat => "Invalid authorization header format"@,
            Rejection::InvalidToken => "Invalid token"@,
            Rejection::InvalidUserId => "Invalid user ID in token"@,
            Rejection::UserNotFound => "User not found"@,
            Rejection::AdminRequired => "Admin access required"@,
        }
    }

    /// The transport status of this rejection.
    pub fn status(&self) -> (code: u16)
        ensures
            code == self.status_code(),
    {
        match self {
            Rejection::AdminRequired => 403,
            _ => 401,
        }
    }

    /// The message of this rejection.
    pub fn message(&self) -> (text: String)
        ensures
            text@ == self.message_text(),
    {
        match self {
            Rejection::MissingHeader => "Missing authorization header".to_string(),
            Rejection::InvalidFormat => "Invalid authorization header format".to_string(),
            Rejection::InvalidToken => "Invalid token".to_string(),
            Rejection::InvalidUserId => "Invalid user ID in token".to_string(),
            Rejection::UserNotFound => "User not found".to_string(),
            Rejection::AdminRequired => "Admin access required".to_string(),
        }
    }
}

/// Calls `str::strip_prefix`: the rest of `text` after `prefix`, where
/// `text` starts with it.
#[verifier::external_body]
fn strip_prefix<'a>(text: &'a str, prefix: &str) -> (rest: Option<&'a str>)
    ensures
        rest is Some <==> prefix@.is_prefix_of(text@),
        rest matches Some(tail) ==> tail@ == text@.skip(prefix@.len() as int),
{
    text.strip_prefix(prefix)
}

/// The scheme that the guard accepts, with the space that follows it.
pub open spec fn bearer_prefix() -> Seq<char> {
    "Bearer "@
}

/// The token that a header carries: what follows `Bearer `.
pub open spec fn bearer_token(header: Seq<char>) -> Option<Seq<char>> {
    if bearer_prefix().is_prefix_of(header) {
        Some(header.skip(bearer_prefix().len() as int))
    } else {
        None
    }
}

/// The verdict of the guard on a header at `now`: the user that the token
/// names, or the first check that failed.
pub open spec fn auth_verdict(
    db: DatabaseView,
    keys: JwtKeysView,
    authorization: Option<Seq<char>>,
    now: u64,
) -> Result<UserView, Rejection> {
    match authorization {
        None => Err(Rejection::MissingHeader),
        Some(header) => match bearer_token(header) {
            None => Err(Rejection::InvalidFormat),
            Some(token) => match access_verdict(token, keys.access_secret, now) {
                Err(_) => Err(Rejection::InvalidToken),
                Ok(claims) => match uuid_parsing(claims.sub) {
                    None => Err(Rejection::InvalidUserId),
                    Some(id) => match db.user_by_id(id) {
                        None => Err(Rejection::UserNotFound),
                        Some(row) => Ok(row.user()),
                    },
                },
            },
        },
    }
}

/// A request whose header carries, after `Bearer `, an access token that
/// verifies and names a user of the store is let through as that user.
pub proof fn lemma_guard_admits(
    db: DatabaseView,
    keys: JwtKeysView,
    token: Seq<char>,
    user_id: u128,
    now: u64,
)
    requires
        authenticates(token, keys.access_secret, user_id, now),
        db.user_by_id(user_id) is Some,
    ensures
        auth_verdict(db, keys, Some(bearer_prefix() + token), now) == Ok::<UserView, Rejection>(
            db.user_by_id(user_id)->0.user(),
        ),
{
    let header = bearer_prefix() + token;
    assert(header.subrange(0, bearer_prefix().len() as int) =~= bearer_prefix());
    assert(header.skip(bearer_prefix().len() as int) =~= token);
}

/// The role that passes the admin check.
pub open spec fn admin_role() -> Seq<char> {
    "admin"@
}

/// The verdict of the admin check on a header at `now`: the verdict of the
/// guard, and `AdminRequired` for a user whose role is not `admin`.
pub open spec fn admin_verdict(
    db: DatabaseView,
    keys: JwtKeysView,
    authorization: Option<Seq<char>>,
    now: u64,
) -> Result<(), Rejection> {
    match auth_verdict(db, keys, authorization, now) {
        Err(rejection) => Err(rejection),
        Ok(user) => if user.role == admin_role() {
            Ok(())
        } else {
            Err(Rejection::AdminRequired)
        },
    }
}

/// The value of an optional header.
pub open spec fn header_text(authorization: Option<&str>) -> Option<Seq<char>> {
    match authorization {
        Some(header) => Some(header@),
        None => None,
    }
}

/// The user that an authenticated request acts for.
#[derive(Debug)]
pub struct AuthUser {
    pub user: User,
}

/// The view of a result whose success carries an [`AuthUser`].
pub open spec fn auth_user_result(result: Result<AuthUser, Rejection>) -> Result<
    UserView,
    Rejection,
> {
    match result {
        Ok(auth_user) => Ok(auth_user.user@),
        Err(rejection) => Err(rejection),
    }
}

impl AuthUser {
    /// Authenticates a request at the time `now` from the text of its
    /// `Authorization` header, if it has one. The checks run in order:
    /// header present, `Bearer ` scheme, token valid under the access
    /// secret, subject an identifier, user in the store.
    pub fn from_request_parts_at(
        authorization: Option<&str>,
        db: &Database,
        keys: &JwtKeys,
        now: u64,
    ) -> (result: Result<AuthUser, Rejection>)
        ensures
            auth_user_result(result) == auth_verdict(db@, keys@, header_text(authorization), now),
    {
        let header = match authorization {
            Some(header) => header,
            None => {
                return Err(Rejection::MissingHeader);
            },
        };
        let token = match strip_prefix(header, "Bearer ") {
            Some(token) => token,
            None => {
                return Err(Rejection::InvalidFormat);
            },
        };
        let claims = match keys.verify_access_token_at(token, now) {
            Ok(claims) => claims,
            Err(_) => {
                return Err(Rejection::InvalidToken);
            },
        };
        let user_id = match parse_id(claims.sub.as_str()) {
            Some(user_id) => user_id,
            None => {
                return Err(Rejection::InvalidUserId);
            },
        };
        match db.find_user_by_id(user_id) {
            Some(row) => Ok(AuthUser { user: User::from(row) }),
            None => Err(Rejection::UserNotFound),
        }
    }

    /// Authenticates a request at the current time against the state of the
    /// application.
    pub fn from_request_parts(authorization: Option<&str>, state: &AppState) -> (result: Result<
        AuthUser,
        Rejection,
    >)
        ensures
            exists|at: u64|
                is_clock_value(at) && auth_user_result(result) == #[trigger] auth_verdict(
                    state.db@,
                    state.jwt_keys@,
                    header_text(authorization),
                    at,
                ),
    {
        AuthUser::from_request_parts_at(authorization, &state.db, &state.jwt_keys, now())
    }
}

/// The proof that a request was made by an admin.
#[derive(Debug)]
pub struct RequireRole;

impl RequireRole {
    /// Authenticates a request at the time `now` and checks that its user
    /// has the role `admin`.
    pub fn from_request_parts_at(
        authorization: Option<&str>,
        db: &Database,
        keys: &JwtKeys,
        now: u64,
    ) -> (result: Result<RequireRole, Rejection>)
        ensures
            result is Ok <==> admin_verdict(db@, keys@, header_text(authorization), now) is Ok,
            result matches Err(rejection) ==> admin_verdict(
                db@,
                keys@,
                header_text(authorization),
                now,
            ) == Err::<(), Rejection>(rejection),
    {
        let auth_user = match AuthUser::from_request_parts_at(authorization, db, keys, now) {
            Ok(auth_user) => auth_user,
            Err(rejection) => {
                return Err(rejection);
            },
        };
        if auth_user.user.role != "admin".to_string() {
            return Err(Rejection::AdminRequired);
        }
        Ok(RequireRole)
    }

    /// Authenticates a request at the current time against the state of the
    /// application and checks that its user has the role `admin`.
    pub fn from_request_parts(authorization: Option<&str>, state: &AppState) -> (result: Result<
        RequireRole,
        Rejection,
    >)
        ensures
            exists|at: u64|
                is_clock_value(at) && (result is Ok <==> (#[trigger] admin_verdict(
                    state.db@,
                    state.jwt_keys@,
                    header_text(authorization),
                    at,
                )) is Ok) && (result matches Err(rejection) ==> admin_verdict(
                    state.db@,
                    state.jwt_keys@,
                    header_text(authorization),
                    at,
                ) == Err::<(), Rejection>(rejection)),
    {
        RequireRole::from_request_parts_at(authorization, &state.db, &state.jwt_keys, now())
    }
}

} // verus!
