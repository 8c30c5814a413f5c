//! Registration, login, logout and refresh-token rotation.
//!
//! Every operation is all-or-nothing: where it fails, the store is as it
//! was. Tokens are signed before anything is stored, so that a failure
//! leaves no half of a change behind.
//!
//! Every issue of tokens has an identifier of its own. It is the identifier
//! of the record that the refresh token is kept on, and both tokens carry
//! it. The store holds no two records under one identifier, so no two
//! issues that are on record share a token, and a rotation, which removes
//! the record of the token that it was given, cannot be repeated.
//!
//! Each operation borrows the store exclusively, so two operations never
//! interleave. Of two rotations of one refresh token the first wins: it
//! removes the token's record, and the second finds none and is refused.
//!
//! Each operation that reads the clock or draws random values has a twin
//! that takes them as arguments, and whose result is a function of its
//! arguments.

use vstd::prelude::*;
use crate::database::Database;
use crate::database::DatabaseView;
use crate::database::belongs_to;
use crate::database::belongs_to_other;
use crate::database::has_id;
use crate::database::has_other_record_id;
use crate::database::has_record_id;
use crate::database::is_live;
use crate::database::lemma_no_record_left;
use crate::database::lemma_removal_keeps_ids_free;
use crate::database::lemma_without_record;
use crate::database::logged_in;
use crate::error::AuthError;
use crate::models::auth::AuthResponse;
use crate::models::auth::AuthResponseView;
use crate::models::auth::LoginRequest;
use crate::models::auth::RefreshToken;
use crate::models::auth::RefreshTokenView;
use crate::models::auth::RegisterRequest;
use crate::models::user::User;
use crate::models::user::UserRow;
use crate::models::user::UserRowView;
use crate::models::user::UserView;
use crate::seqs::keep;
use crate::seqs::lemma_first_match_at;
use crate::seqs::lemma_first_match_holds;
use crate::seqs::lemma_first_match_none;
use crate::seqs::lemma_keep_idempotent;
use crate::seqs::lemma_keep_members;
use crate::utils::clock::is_clock_value;
use crate::utils::clock::now;
use crate::utils::ident::is_random_uuid;
use crate::utils::ident::new_id;
use crate::utils::ident::parse_id;
use crate::utils::ident::uuid_parsing;
use crate::utils::ident::uuid_string;
use crate::utils::jwt::JwtKeys;
use crate::utils::jwt::JwtKeysView;
use crate::utils::jwt::REFRESH_TOKEN_TTL;
use crate::utils::jwt::access_token_at;
use crate::utils::jwt::clock_in_range;
use crate::utils::jwt::is_access_token_of;
use crate::utils::jwt::is_refresh_token_of;
use crate::utils::jwt::issue_of;
use crate::utils::jwt::jwt_decoding;
use crate::utils::jwt::refresh_token_at;
use crate::utils::jwt::refresh_verdict;
use crate::utils::password::DEFAULT_COST;
use crate::utils::password::bcrypt_verification;
use crate::utils::password::hash_password;
use crate::utils::password::hash_token;
use crate::utils::password::sha256_hex;
use crate::utils::password::verify_password;

verus! {

/// The lifetime of an access token as responses report it, in seconds.
pub const EXPIRES_IN: i64 = 600;

/// The role of a newly registered user.
pub open spec fn default_role() -> Seq<char> {
    "user"@
}

/// The row of a newly registered user.
pub open spec fn new_user_row(
    email: Seq<char>,
    agree_to_terms: bool,
    password_hash: Seq<char>,
    user_id: u128,
    now: u64,
) -> UserRowView {
    UserRowView {
        id: user_id,
        email: email,
        password_hash: password_hash,
        name: None,
        avatar_url: None,
        role: default_role(),
        email_verified: false,
        terms_accepted: agree_to_terms,
        created_at: now,
        updated_at: now,
        last_login: None,
    }
}

/// The pair of tokens that the issue `record_id` makes for `user` at `now`:
/// the access token, then the refresh token. There is none where the clock
/// is out of range.
pub open spec fn token_pair_at(keys: JwtKeysView, user: UserView, record_id: u128, now: u64)
    -> Option<(Seq<char>, Seq<char>)> {
    match (
        access_token_at(user, record_id, now, keys.access_secret),
        refresh_token_at(user.id, record_id, now, keys.refresh_secret),
    ) {
        (Some(access), Some(refresh)) => Some((access, refresh)),
        _ => None,
    }
}

/// The record stored for a refresh token issued to `user_id` at `now`: the
/// hash of the token, never the token, expiring with the token.
pub open spec fn record_for(record_id: u128, user_id: u128, refresh_token: Seq<char>, now: u64)
    -> RefreshTokenView {
    RefreshTokenView {
        id: record_id,
        user_id: user_id,
        token_hash: sha256_hex(refresh_token),
        expires_at: (now + REFRESH_TOKEN_TTL) as u64,
        created_at: now,
    }
}

/// The response that hands `user` a pair of tokens.
pub open spec fn response_for(user: UserView, pair: (Seq<char>, Seq<char>)) -> AuthResponseView {
    AuthResponseView { user: user, token: pair.0, refresh_token: pair.1, expires_in: EXPIRES_IN }
}

/// Whether tokens can be issued under `record_id` at `now`: the store holds
/// no record under that identifier, and the clock is in range.
pub open spec fn can_issue(db: DatabaseView, record_id: u128, now: u64) -> bool {
    db.record_by_id(record_id) is None && clock_in_range(now, REFRESH_TOKEN_TTL)
}

/// What issuing tokens for `user` under `record_id` at `now` answers: the
/// pair of tokens, or `Internal` where they cannot be issued.
pub open spec fn issue_result(
    db: DatabaseView,
    keys: JwtKeysView,
    user: UserView,
    record_id: u128,
    now: u64,
) -> Result<AuthResponseView, AuthError> {
    match token_pair_at(keys, user, record_id, now) {
        Some(pair) => if db.record_by_id(record_id) is None {
            Ok(response_for(user, pair))
        } else {
            Err(AuthError::Internal)
        },
        None => Err(AuthError::Internal),
    }
}

/// The store after `result` was handed out at `now`: one more record where
/// it is a response, the same store where it is an error.
pub open spec fn with_issued(
    db: DatabaseView,
    result: Result<AuthResponseView, AuthError>,
    record_id: u128,
    now: u64,
) -> DatabaseView {
    match result {
        Ok(response) => db.with_record(
            record_for(record_id, response.user.id, response.refresh_token, now),
        ),
        Err(_) => db,
    }
}

/// What registration answers. The email must be free (`AlreadyExists`) and
/// the new identifier unused (`Internal`); then tokens are issued to the new
/// user.
pub open spec fn register_result(
    db: DatabaseView,
    keys: JwtKeysView,
    email: Seq<char>,
    agree_to_terms: bool,
    password_hash: Seq<char>,
    user_id: u128,
    record_id: u128,
    now: u64,
) -> Result<AuthResponseView, AuthError> {
    let row = new_user_row(email, agree_to_terms, password_hash, user_id, now);
    match db.insert_user_verdict(row) {
        Err(error) => Err(error),
        Ok(_) => issue_result(db, keys, row.user(), record_id, now),
    }
}

/// The store after registration: with the new user and the record of the
/// refresh token where registration succeeds, unchanged where it fails.
pub open spec fn register_db(
    db: DatabaseView,
    keys: JwtKeysView,
    email: Seq<char>,
    agree_to_terms: bool,
    password_hash: Seq<char>,
    user_id: u128,
    record_id: u128,
    now: u64,
) -> DatabaseView {
    let row = new_user_row(email, agree_to_terms, password_hash, user_id, now);
    let result = register_result(
        db,
        keys,
        email,
        agree_to_terms,
        password_hash,
        user_id,
        record_id,
        now,
    );
    if result is Ok {
        with_issued(db.with_user(row), result, record_id, now)
    } else {
        db
    }
}

/// The verdict on an email and a password: the user that they belong to. An
/// unknown email and a wrong password are both `InvalidCredentials`; a
/// stored hash that cannot be checked is `Internal`.
pub open spec fn credentials_verdict(db: DatabaseView, email: Seq<char>, password: Seq<char>)
    -> Result<UserRowView, AuthError> {
    match db.user_by_email(email) {
        None => Err(AuthError::InvalidCredentials),
        Some(row) => match bcrypt_verification(password, row.password_hash) {
            None => Err(AuthError::Internal),
            Some(false) => Err(AuthError::InvalidCredentials),
            Some(true) => Ok(row),
        },
    }
}

/// What login answers: the refusal of the credentials, or the tokens issued
/// to their user, whose last login is `now`.
pub open spec fn login_result(
    db: DatabaseView,
    keys: JwtKeysView,
    email: Seq<char>,
    password: Seq<char>,
    record_id: u128,
    now: u64,
) -> Result<AuthResponseView, AuthError> {
    match credentials_verdict(db, email, password) {
        Err(error) => Err(error),
        Ok(row) => issue_result(db, keys, logged_in(row, now).user(), record_id, now),
    }
}

/// The store after login: with the user's last login set and the record of
/// the refresh token where login succeeds, unchanged where it fails.
pub open spec fn login_db(
    db: DatabaseView,
    keys: JwtKeysView,
    email: Seq<char>,
    password: Seq<char>,
    record_id: u128,
    now: u64,
) -> DatabaseView {
    let result = login_result(db, keys, email, password, record_id, now);
    match result {
        Ok(response) => with_issued(db.with_login(response.user.id, now), result, record_id, now),
        Err(_) => db,
    }
}

/// The record that a refresh token is kept on, as far as the token is good
/// for a rotation at `now`: the token must verify under the refresh secret,
/// and the record that it names must be in the store, hold the token's hash
/// and not have expired. Every failure is `InvalidToken`.
pub open spec fn presented_record(
    db: DatabaseView,
    keys: JwtKeysView,
    refresh_token: Seq<char>,
    now: u64,
) -> Result<RefreshTokenView, AuthError> {
    match refresh_verdict(refresh_token, keys.refresh_secret, now) {
        Err(_) => Err(AuthError::InvalidToken),
        Ok(claims) => match uuid_parsing(claims.jti) {
            None => Err(AuthError::InvalidToken),
            Some(id) => match db.live_record(sha256_hex(refresh_token), id, now) {
                None => Err(AuthError::InvalidToken),
                Some(record) => Ok(record),
            },
        },
    }
}

/// What a rotation answers. The token must be good for a rotation
/// (`InvalidToken` otherwise); the user of its record must be in the store
/// (`NotFound`); then tokens are issued to that user under `record_id`.
pub open spec fn rotate_result(
    db: DatabaseView,
    keys: JwtKeysView,
    refresh_token: Seq<char>,
    record_id: u128,
    now: u64,
) -> Result<AuthResponseView, AuthError> {
    match presented_record(db, keys, refresh_token, now) {
        Err(error) => Err(error),
        Ok(record) => match db.user_by_id(record.user_id) {
            None => Err(AuthError::NotFound),
            Some(row) => issue_result(db, keys, row.user(), record_id, now),
        },
    }
}

/// The store after a rotation: without the record of the presented token and
/// with the record of the new one where the rotation succeeds, unchanged
/// where it fails.
pub open spec fn rotate_db(
    db: DatabaseView,
    keys: JwtKeysView,
    refresh_token: Seq<char>,
    record_id: u128,
    now: u64,
) -> DatabaseView {
    let result = rotate_result(db, keys, refresh_token, record_id, now);
    match (presented_record(db, keys, refresh_token, now), result) {
        (Ok(record), Ok(_)) => with_issued(db.without_record(record.id), result, record_id, now),
        _ => db,
    }
}

/// Whether `response` is the session that the issue `record_id` opened at
/// `now`, and `db` holds its record. The access token decodes to the claims
/// of the user and of the issue and verifies at `now`; so does the refresh
/// token; and the record of the issue holds the hash of the refresh token
/// and is good for a rotation.
pub open spec fn is_session(
    db: DatabaseView,
    keys: JwtKeysView,
    response: AuthResponseView,
    record_id: u128,
    now: u64,
) -> bool {
    &&& is_access_token_of(response.token, keys.access_secret, response.user, record_id, now)
    &&& is_refresh_token_of(
        response.refresh_token,
        keys.refresh_secret,
        response.user.id,
        record_id,
        now,
    )
    &&& db.record_by_id(record_id) == Some(
        record_for(record_id, response.user.id, response.refresh_token, now),
    )
    &&& presented_record(db, keys, response.refresh_token, now) == Ok::<
        RefreshTokenView,
        AuthError,
    >(record_for(record_id, response.user.id, response.refresh_token, now))
    &&& response.expires_in == EXPIRES_IN
}

/// Whether `result` and `after` are what a registration may leave of the
/// store `before`, for some salt, identifiers and time. A refusal leaves the
/// store as it was; it is `AlreadyExists` exactly where the email is taken,
/// and `Internal` otherwise.
pub open spec fn is_registration(
    before: DatabaseView,
    keys: JwtKeysView,
    email: Seq<char>,
    password: Seq<char>,
    agree_to_terms: bool,
    result: Result<AuthResponseView, AuthError>,
    after: DatabaseView,
) -> bool {
    match result {
        Ok(response) => exists|hash: Seq<char>, user_id: u128, record_id: u128, at: u64|
            bcrypt_verification(password, hash) == Some(true) && is_random_uuid(user_id)
                && is_random_uuid(record_id) && is_clock_value(at) && result
                == #[trigger] register_result(
                before,
                keys,
                email,
                agree_to_terms,
                hash,
                user_id,
                record_id,
                at,
            ) && after == register_db(
                before,
                keys,
                email,
                agree_to_terms,
                hash,
                user_id,
                record_id,
                at,
            ) && is_session(after, keys, response, record_id, at),
        Err(error) => after == before && (error == AuthError::AlreadyExists || error
            == AuthError::Internal) && (error == AuthError::AlreadyExists <==> before.user_by_email(
            email,
        ) is Some),
    }
}

/// Whether `result` and `after` are what a login may leave of the store
/// `before`, for some record identifier and time.
pub open spec fn is_login(
    before: DatabaseView,
    keys: JwtKeysView,
    email: Seq<char>,
    password: Seq<char>,
    result: Result<AuthResponseView, AuthError>,
    after: DatabaseView,
) -> bool {
    exists|record_id: u128, at: u64|
        is_random_uuid(record_id) && is_clock_value(at) && result == #[trigger] login_result(
            before,
            keys,
            email,
            password,
            record_id,
            at,
        ) && after == login_db(before, keys, email, password, record_id, at) && (
        result matches Ok(response) ==> is_session(after, keys, response, record_id, at))
}

/// Whether `result` and `after` are what a rotation may leave of the store
/// `before`, for some record identifier and time.
pub open spec fn is_rotation(
    before: DatabaseView,
    keys: JwtKeysView,
    refresh_token: Seq<char>,
    result: Result<AuthResponseView, AuthError>,
    after: DatabaseView,
) -> bool {
    exists|record_id: u128, at: u64|
        is_random_uuid(record_id) && is_clock_value(at) && result == #[trigger] rotate_result(
            before,
            keys,
            refresh_token,
            record_id,
            at,
        ) && after == rotate_db(before, keys, refresh_token, record_id, at) && (
        result matches Ok(response) ==> is_session(after, keys, response, record_id, at))
}

/// Whether `result` and `after` are what an issue of tokens for `user` may
/// leave of the store `before`, for some record identifier and time.
pub open spec fn is_issue(
    before: DatabaseView,
    keys: JwtKeysView,
    user: UserView,
    result: Result<AuthResponseView, AuthError>,
    after: DatabaseView,
) -> bool {
    exists|record_id: u128, at: u64|
        is_random_uuid(record_id) && is_clock_value(at) && result == #[trigger] issue_result(
            before,
            keys,
            user,
            record_id,
            at,
        ) && after == with_issued(before, result, record_id, at) && (result matches Ok(response)
            ==> is_session(after, keys, response, record_id, at))
}

/// The view of a result whose success carries an [`AuthResponse`].
pub open spec fn response_result(result: Result<AuthResponse, AuthError>) -> Result<
    AuthResponseView,
    AuthError,
> {
    match result {
        Ok(response) => Ok(response@),
        Err(error) => Err(error),
    }
}

/// Whether the store holds a record of `refresh_token` for the user
/// `user_id`.
pub open spec fn on_record(db: DatabaseView, refresh_token: Seq<char>, user_id: u128) -> bool {
    exists|i: int|
        0 <= i < db.refresh_tokens.len() && (#[trigger] db.refresh_tokens[i]).token_hash
            == sha256_hex(refresh_token) && db.refresh_tokens[i].user_id == user_id
}

/// Whether the subject that `token` carries under `secret` is the user
/// `user_id`.
pub open spec fn subject_is(token: Seq<char>, secret: Seq<char>, user_id: u128) -> bool {
    jwt_decoding(token, secret) matches Some(claims) && claims.sub == Some(uuid_string(user_id))
}

/// Tokens can be issued exactly where the identifier is free and the clock
/// in range.
pub proof fn lemma_issue_succeeds(
    db: DatabaseView,
    keys: JwtKeysView,
    user: UserView,
    record_id: u128,
    now: u64,
)
    ensures
        issue_result(db, keys, user, record_id, now) is Ok <==> can_issue(db, record_id, now),
        issue_result(db, keys, user, record_id, now) matches Err(error) ==> error
            == AuthError::Internal,
{
}

/// A login with a wrong password and a login with an unknown email fail
/// alike: the same kind of error, hence the same message and status, and the
/// store as it was.
pub proof fn lemma_login_failures_alike(
    db: DatabaseView,
    keys: JwtKeysView,
    known_email: Seq<char>,
    wrong_password: Seq<char>,
    unknown_email: Seq<char>,
    any_password: Seq<char>,
    record_id: u128,
    now: u64,
)
    requires
        db.user_by_email(known_email) matches Some(row) && bcrypt_verification(
            wrong_password,
            row.password_hash,
        ) == Some(false),
        db.user_by_email(unknown_email) is None,
    ensures
        credentials_verdict(db, known_email, wrong_password) == credentials_verdict(
            db,
            unknown_email,
            any_password,
        ),
        login_result(db, keys, known_email, wrong_password, record_id, now) == Err::<
            AuthResponseView,
            AuthError,
        >(AuthError::InvalidCredentials),
        login_result(db, keys, unknown_email, any_password, record_id, now) == login_result(
            db,
            keys,
            known_email,
            wrong_password,
            record_id,
            now,
        ),
        login_result(db, keys, unknown_email, any_password, record_id, now)->Err_0.message_text()
            == login_result(
            db,
            keys,
            known_email,
            wrong_password,
            record_id,
            now,
        )->Err_0.message_text(),
        login_db(db, keys, known_email, wrong_password, record_id, now) == db,
        login_db(db, keys, unknown_email, any_password, record_id, now) == db,
{
}

/// A login with the right password succeeds wherever tokens can be issued.
pub proof fn lemma_login_succeeds(
    db: DatabaseView,
    keys: JwtKeysView,
    email: Seq<char>,
    password: Seq<char>,
    record_id: u128,
    now: u64,
)
    requires
        credentials_verdict(db, email, password) is Ok,
        can_issue(db, record_id, now),
    ensures
        login_result(db, keys, email, password, record_id, now) is Ok,
{
}

/// The record that a token is good for is the record under the identifier
/// that the token carries, and holds the token's hash.
pub proof fn lemma_presented_record(
    db: DatabaseView,
    keys: JwtKeysView,
    refresh_token: Seq<char>,
    now: u64,
)
    requires
        presented_record(db, keys, refresh_token, now) is Ok,
    ensures
        issue_of(refresh_token, keys.refresh_secret) == Some(
            presented_record(db, keys, refresh_token, now)->Ok_0.id,
        ),
        presented_record(db, keys, refresh_token, now)->Ok_0.token_hash == sha256_hex(
            refresh_token,
        ),
        presented_record(db, keys, refresh_token, now)->Ok_0.expires_at > now,
        db.record_by_id(presented_record(db, keys, refresh_token, now)->Ok_0.id) is Some,
{
    let claims = refresh_verdict(refresh_token, keys.refresh_secret, now)->Ok_0;
    let id = uuid_parsing(claims.jti)->0;
    let hash = sha256_hex(refresh_token);
    lemma_first_match_holds(db.refresh_tokens, is_live(hash, id, now));
    let record = db.live_record(hash, id, now)->0;
    assert(is_live(hash, id, now)(record));
    lemma_first_match_none(db.refresh_tokens, has_record_id(id));
    let k = choose|k: int| 0 <= k < db.refresh_tokens.len() && db.refresh_tokens[k] == record;
    assert(has_record_id(id)(db.refresh_tokens[k]));
}

/// A token whose identifier the store holds no record under is refused with
/// `InvalidToken`, at any time and whatever else the store holds. So a token
/// that was rotated, or whose user logged out, stays refused as long as its
/// identifier is not put on record again.
pub proof fn lemma_spent_token_is_refused(
    db: DatabaseView,
    keys: JwtKeysView,
    refresh_token: Seq<char>,
    record_id: u128,
    now: u64,
)
    requires
        issue_of(refresh_token, keys.refresh_secret) matches Some(id) ==> db.record_by_id(id)
            is None,
    ensures
        rotate_result(db, keys, refresh_token, record_id, now) == Err::<
            AuthResponseView,
            AuthError,
        >(AuthError::InvalidToken),
        rotate_db(db, keys, refresh_token, record_id, now) == db,
{
    if presented_record(db, keys, refresh_token, now) is Ok {
        lemma_presented_record(db, keys, refresh_token, now);
    }
}

/// Rotation is single-use. After a rotation that succeeded, the token that
/// was presented is refused with `InvalidToken` at any time and under any
/// new identifier, and the refusal leaves the store as it was.
pub proof fn lemma_rotation_is_single_use(
    db: DatabaseView,
    keys: JwtKeysView,
    refresh_token: Seq<char>,
    record_id: u128,
    now: u64,
    next_record_id: u128,
    later: u64,
)
    requires
        rotate_result(db, keys, refresh_token, record_id, now) is Ok,
    ensures
        rotate_result(
            rotate_db(db, keys, refresh_token, record_id, now),
            keys,
            refresh_token,
            next_record_id,
            later,
        ) == Err::<AuthResponseView, AuthError>(AuthError::InvalidToken),
        rotate_db(
            rotate_db(db, keys, refresh_token, record_id, now),
            keys,
            refresh_token,
            next_record_id,
            later,
        ) == rotate_db(db, keys, refresh_token, record_id, now),
{
    lemma_rotation_spends(db, keys, refresh_token, record_id, now);
    lemma_spent_token_is_refused(
        rotate_db(db, keys, refresh_token, record_id, now),
        keys,
        refresh_token,
        next_record_id,
        later,
    );
}

/// Of two rotations of one token, one after the other, the second is refused
/// with `InvalidToken` where the first succeeded, and leaves the store as the
/// first left it; whatever the times and the identifiers that were drawn.
pub proof fn lemma_second_rotation_is_refused(
    before: DatabaseView,
    keys: JwtKeysView,
    refresh_token: Seq<char>,
    first: Result<AuthResponseView, AuthError>,
    between: DatabaseView,
    second: Result<AuthResponseView, AuthError>,
    after: DatabaseView,
)
    requires
        is_rotation(before, keys, refresh_token, first, between),
        first is Ok,
        is_rotation(between, keys, refresh_token, second, after),
    ensures
        second == Err::<AuthResponseView, AuthError>(AuthError::InvalidToken),
        after == between,
{
    let (record_id, at) = choose|record_id: u128, at: u64|
        first == #[trigger] rotate_result(before, keys, refresh_token, record_id, at) && between
            == rotate_db(before, keys, refresh_token, record_id, at);
    let (next_record_id, later) = choose|next_record_id: u128, later: u64|
        second == #[trigger] rotate_result(between, keys, refresh_token, next_record_id, later)
            && after == rotate_db(between, keys, refresh_token, next_record_id, later);
    lemma_rotation_is_single_use(
        before,
        keys,
        refresh_token,
        record_id,
        at,
        next_record_id,
        later,
    );
}

/// A rotation of the refresh token of a session opens a new session for the
/// same user: both of its tokens are new, even in the second in which the
/// old ones were issued.
pub proof fn lemma_rotation_makes_a_new_pair(
    before: DatabaseView,
    keys: JwtKeysView,
    session: AuthResponseView,
    session_id: u128,
    opened_at: u64,
    result: Result<AuthResponseView, AuthError>,
    after: DatabaseView,
)
    requires
        is_access_token_of(session.token, keys.access_secret, session.user, session_id, opened_at),
        is_refresh_token_of(
            session.refresh_token,
            keys.refresh_secret,
            session.user.id,
            session_id,
            opened_at,
        ),
        is_rotation(before, keys, session.refresh_token, result, after),
        result is Ok,
    ensures
        result->Ok_0.token != session.token,
        result->Ok_0.refresh_token != session.refresh_token,
        result->Ok_0.expires_in == EXPIRES_IN,
{
    let (record_id, at) = choose|record_id: u128, at: u64|
        result == #[trigger] rotate_result(before, keys, session.refresh_token, record_id, at)
            && after == rotate_db(before, keys, session.refresh_token, record_id, at) && (
        result matches Ok(response) ==> is_session(after, keys, response, record_id, at));
    lemma_rotation_spends(before, keys, session.refresh_token, record_id, at);
}

/// A rotation of the refresh token of a session opens the new session for
/// the user of the old one.
pub proof fn lemma_rotation_keeps_the_user(
    before: DatabaseView,
    keys: JwtKeysView,
    session: AuthResponseView,
    session_id: u128,
    opened_at: u64,
    record_id: u128,
    now: u64,
)
    requires
        before.wf(),
        is_session(before, keys, session, session_id, opened_at),
        rotate_result(before, keys, session.refresh_token, record_id, now) is Ok,
    ensures
        rotate_result(before, keys, session.refresh_token, record_id, now)->Ok_0.user.id
            == session.user.id,
{
    let token = session.refresh_token;
    lemma_presented_record(before, keys, token, now);
    let record = presented_record(before, keys, token, now)->Ok_0;
    let kept = record_for(session_id, session.user.id, token, opened_at);
    let records = before.refresh_tokens;
    assert(record.id == session_id);
    lemma_first_match_holds(records, is_live(sha256_hex(token), session_id, now));
    lemma_first_match_holds(records, has_record_id(session_id));
    let i = choose|i: int| 0 <= i < records.len() && records[i] == record;
    let j = choose|j: int| 0 <= j < records.len() && records[j] == kept;
    assert(has_record_id(session_id)(records[j]));
    if i < j {
        assert(records[i].id != records[j].id);
    } else if j < i {
        assert(records[j].id != records[i].id);
    }
    lemma_first_match_holds(before.users, has_id(record.user_id));
}

/// A rotation that succeeds leaves no record under the identifier of the
/// presented token, and issues under another identifier: the new tokens are
/// not the presented one.
pub proof fn lemma_rotation_spends(
    db: DatabaseView,
    keys: JwtKeysView,
    refresh_token: Seq<char>,
    record_id: u128,
    now: u64,
)
    requires
        rotate_result(db, keys, refresh_token, record_id, now) is Ok,
    ensures
        issue_of(refresh_token, keys.refresh_secret) matches Some(id) && id != record_id
            && rotate_db(db, keys, refresh_token, record_id, now).record_by_id(id) is None,
{
    lemma_presented_record(db, keys, refresh_token, now);
    let record = presented_record(db, keys, refresh_token, now)->Ok_0;
    let after = rotate_db(db, keys, refresh_token, record_id, now);
    let kept = db.without_record(record.id).refresh_tokens;
    lemma_no_record_left(db, record.id);
    lemma_first_match_none(kept, has_record_id(record.id));
    lemma_first_match_none(after.refresh_tokens, has_record_id(record.id));
    assert forall|i: int| 0 <= i < after.refresh_tokens.len() implies !has_record_id(record.id)(
        #[trigger] after.refresh_tokens[i],
    ) by {
        if i < kept.len() {
            assert(after.refresh_tokens[i] == kept[i]);
            assert(!has_record_id(record.id)(kept[i]));
        }
    }
}

/// A rotation that succeeds removes exactly one record, that of the
/// presented token, and adds exactly one, that of the new refresh token. The
/// users are as they were.
pub proof fn lemma_rotation_swaps_one_record(
    db: DatabaseView,
    keys: JwtKeysView,
    refresh_token: Seq<char>,
    record_id: u128,
    now: u64,
)
    requires
        db.wf(),
        rotate_result(db, keys, refresh_token, record_id, now) is Ok,
    ensures
        ({
            let response = rotate_result(db, keys, refresh_token, record_id, now)->Ok_0;
            let removed = presented_record(db, keys, refresh_token, now)->Ok_0;
            let after = rotate_db(db, keys, refresh_token, record_id, now);
            let issued = record_for(record_id, response.user.id, response.refresh_token, now);
            &&& after.refresh_tokens == db.without_record(removed.id).refresh_tokens.push(issued)
            &&& db.without_record(removed.id).refresh_tokens.len() + 1 == db.refresh_tokens.len()
            &&& after.refresh_tokens.len() == db.refresh_tokens.len()
            &&& after.record_by_id(removed.id) is None
            &&& after.users == db.users
            &&& after.wf()
        }),
{
    lemma_presented_record(db, keys, refresh_token, now);
    lemma_rotation_spends(db, keys, refresh_token, record_id, now);
    let removed = presented_record(db, keys, refresh_token, now)->Ok_0;
    let after = rotate_db(db, keys, refresh_token, record_id, now);
    lemma_without_record(db, removed.id);
    let kept = db.without_record(removed.id).refresh_tokens;
    lemma_keep_members(db.refresh_tokens, has_other_record_id(removed.id));
    lemma_first_match_none(db.refresh_tokens, has_record_id(record_id));
    assert forall|i: int, j: int| 0 <= i < j < after.refresh_tokens.len() implies (
    #[trigger] after.refresh_tokens[i]).id != (#[trigger] after.refresh_tokens[j]).id by {
        if j < kept.len() {
            assert(after.refresh_tokens[i] == kept[i] && after.refresh_tokens[j] == kept[j]);
        } else {
            assert(after.refresh_tokens[i] == kept[i]);
            assert(db.refresh_tokens.contains(kept[i]));
            let k = choose|k: int|
                0 <= k < db.refresh_tokens.len() && db.refresh_tokens[k] == kept[i];
            assert(!has_record_id(record_id)(db.refresh_tokens[k]));
        }
    }
}

/// A refusal is final: a token that is refused with `InvalidToken` is refused
/// with `InvalidToken` at every later time, as long as the store is as it
/// was.
pub proof fn lemma_refusal_is_final(
    db: DatabaseView,
    keys: JwtKeysView,
    refresh_token: Seq<char>,
    record_id: u128,
    now: u64,
    next_record_id: u128,
    later: u64,
)
    requires
        rotate_result(db, keys, refresh_token, record_id, now) == Err::<
            AuthResponseView,
            AuthError,
        >(AuthError::InvalidToken),
        later >= now,
    ensures
        rotate_result(db, keys, refresh_token, next_record_id, later) == Err::<
            AuthResponseView,
            AuthError,
        >(AuthError::InvalidToken),
{
    let hash = sha256_hex(refresh_token);
    let verdict = refresh_verdict(refresh_token, keys.refresh_secret, later);
    if verdict is Ok {
        let claims = verdict->Ok_0;
        if uuid_parsing(claims.jti) is Some {
            let id = uuid_parsing(claims.jti)->0;
            assert(refresh_verdict(refresh_token, keys.refresh_secret, now) == verdict);
            lemma_first_match_none(db.refresh_tokens, is_live(hash, id, now));
            lemma_first_match_none(db.refresh_tokens, is_live(hash, id, later));
            assert forall|i: int| 0 <= i < db.refresh_tokens.len() implies !is_live(
                hash,
                id,
                later,
            )(#[trigger] db.refresh_tokens[i]) by {
                assert(!is_live(hash, id, now)(db.refresh_tokens[i]));
            }
        }
    }
}

/// After a logout, every refresh token whose record belonged to the user is
/// refused with `InvalidToken`, at any time.
pub proof fn lemma_logout_revokes(
    db: DatabaseView,
    keys: JwtKeysView,
    user_id: u128,
    refresh_token: Seq<char>,
    record_id: u128,
    now: u64,
)
    requires
        forall|i: int|
            0 <= i < db.refresh_tokens.len() && (#[trigger] db.refresh_tokens[i]).token_hash
                == sha256_hex(refresh_token) ==> db.refresh_tokens[i].user_id == user_id,
    ensures
        rotate_result(db.without_records_of(user_id), keys, refresh_token, record_id, now) == Err::<
            AuthResponseView,
            AuthError,
        >(AuthError::InvalidToken),
{
    let hash = sha256_hex(refresh_token);
    let after = db.without_records_of(user_id);
    lemma_keep_members(db.refresh_tokens, belongs_to_other(user_id));
    if presented_record(after, keys, refresh_token, now) is Ok {
        lemma_presented_record(after, keys, refresh_token, now);
        let record = presented_record(after, keys, refresh_token, now)->Ok_0;
        let id = record.id;
        lemma_first_match_holds(after.refresh_tokens, is_live(hash, id, now));
        assert(after.refresh_tokens.contains(record));
        let k = choose|k: int|
            0 <= k < after.refresh_tokens.len() && after.refresh_tokens[k] == record;
        assert(belongs_to_other(user_id)(after.refresh_tokens[k]));
        assert(db.refresh_tokens.contains(record));
        let j = choose|j: int| 0 <= j < db.refresh_tokens.len() && db.refresh_tokens[j] == record;
        assert(db.refresh_tokens[j].token_hash == hash ==> db.refresh_tokens[j].user_id == user_id);
    }
}

/// Logging out twice is logging out once.
pub proof fn lemma_logout_idempotent(db: DatabaseView, user_id: u128)
    ensures
        db.without_records_of(user_id).without_records_of(user_id) == db.without_records_of(
            user_id,
        ),
        db.without_records_of(user_id).count_records_of(user_id) == 0,
{
    lemma_keep_idempotent(db.refresh_tokens, belongs_to_other(user_id));
    let after = db.without_records_of(user_id).refresh_tokens;
    lemma_keep_members(db.refresh_tokens, belongs_to_other(user_id));
    lemma_keep_members(after, belongs_to(user_id));
    if keep(after, belongs_to(user_id)).len() > 0 {
        let record = keep(after, belongs_to(user_id))[0];
        assert(belongs_to(user_id)(record));
        assert(after.contains(record));
        let k = choose|k: int| 0 <= k < after.len() && after[k] == record;
        assert(belongs_to_other(user_id)(after[k]));
    }
}

/// The session operations, over a pair of signing secrets and a work factor
/// for password hashing.
pub struct AuthService<'a> {
    jwt_keys: &'a JwtKeys,
    cost: u32,
}

impl<'a> AuthService<'a> {
    /// A service that signs with `jwt_keys` and hashes passwords at the
    /// default work factor.
    pub fn new(jwt_keys: &'a JwtKeys) -> (service: Self)
        ensures
            service.keys() == jwt_keys@,
            service.work_factor() == DEFAULT_COST,
    {
        Self { jwt_keys, cost: DEFAULT_COST }
    }

    /// A service that signs with `jwt_keys` and hashes passwords at the work
    /// factor `cost`.
    pub fn with_cost(jwt_keys: &'a JwtKeys, cost: u32) -> (service: Self)
        ensures
            service.keys() == jwt_keys@,
            service.work_factor() == cost,
    {
        Self { jwt_keys, cost }
    }

    /// The secrets that this service signs with.
    pub closed spec fn keys(&self) -> JwtKeysView {
        self.jwt_keys@
    }

    /// The work factor at which this service hashes passwords.
    pub closed spec fn work_factor(&self) -> u32 {
        self.cost
    }

    /// Signs the pair of tokens of the issue `record_id`, where the store
    /// holds no record under that identifier. Nothing is stored.
    fn sign_pair(&self, db: &Database, user: &User, record_id: u128, now: u64) -> (pair: Result<
        (String, String),
        AuthError,
    >)
        ensures
            pair is Ok <==> can_issue(db@, record_id, now),
            match pair {
                Ok((token, refresh_token)) => issue_result(
                    db@,
                    self.keys(),
                    user@,
                    record_id,
                    now,
                ) == Ok::<AuthResponseView, AuthError>(
                    response_for(user@, (token@, refresh_token@)),
                ) && is_access_token_of(
                    token@,
                    self.keys().access_secret,
                    user@,
                    record_id,
                    now,
                ) && is_refresh_token_of(
                    refresh_token@,
                    self.keys().refresh_secret,
                    user.id,
                    record_id,
                    now,
                ),
                Err(error) => error == AuthError::Internal && issue_result(
                    db@,
                    self.keys(),
                    user@,
                    record_id,
                    now,
                ) == Err::<AuthResponseView, AuthError>(AuthError::Internal),
            },
    {
        if db.find_record_by_id(record_id).is_some() {
            return Err(AuthError::Internal);
        }
        let token = match self.jwt_keys.generate_access_token_at(user, record_id, now) {
            Ok(token) => token,
            Err(_) => {
                return Err(AuthError::Internal);
            },
        };
        let refresh_token = match self.jwt_keys.generate_refresh_token_at(user, record_id, now) {
            Ok(token) => token,
            Err(_) => {
                return Err(AuthError::Internal);
            },
        };
        Ok((token, refresh_token))
    }

    /// Puts the hash of the refresh token that the issue `record_id` made at
    /// `now` on record.
    fn store_record(
        &self,
        db: &mut Database,
        user_id: u128,
        refresh_token: &str,
        record_id: u128,
        now: u64,
    )
        requires
            old(db)@.record_by_id(record_id) is None,
            now + REFRESH_TOKEN_TTL <= u64::MAX,
        ensures
            final(db)@ == old(db)@.with_record(record_for(record_id, user_id, refresh_token@, now)),
            final(db)@.record_by_id(record_id) == Some(
                record_for(record_id, user_id, refresh_token@, now),
            ),
            final(db)@.live_record(sha256_hex(refresh_token@), record_id, now) == Some(
                record_for(record_id, user_id, refresh_token@, now),
            ),
            on_record(final(db)@, refresh_token@, user_id),
    {
        let record = RefreshToken {
            id: record_id,
            user_id,
            token_hash: hash_token(refresh_token),
            expires_at: now + REFRESH_TOKEN_TTL,
            created_at: now,
        };
        let inserted = db.insert_refresh_record(record);
        assert(inserted is Ok);
        proof {
            let records = db@.refresh_tokens;
            let last = records.len() - 1;
            let live = is_live(sha256_hex(refresh_token@), record_id, now);
            assert(records[last] == record@);
            lemma_first_match_none(old(db)@.refresh_tokens, has_record_id(record_id));
            assert forall|j: int| 0 <= j < last implies !live(#[trigger] records[j]) by {
                assert(records[j] == old(db)@.refresh_tokens[j]);
                assert(!has_record_id(record_id)(old(db)@.refresh_tokens[j]));
            }
            assert(live(records[last]));
            lemma_first_match_at(records, live, last);
        }
    }

    /// Issues an access token and a refresh token to `user` at `now` under
    /// the identifier `record_id`, and puts the hash of the refresh token on
    /// record under that identifier. It succeeds exactly where the store
    /// holds no record under the identifier and the clock is in range;
    /// otherwise nothing is stored.
    pub fn generate_tokens_at(&self, db: &mut Database, user: &User, record_id: u128, now: u64)
        -> (result: Result<AuthResponse, AuthError>)
        ensures
            response_result(result) == issue_result(old(db)@, self.keys(), user@, record_id, now),
            final(db)@ == with_issued(old(db)@, response_result(result), record_id, now),
            result is Ok <==> can_issue(old(db)@, record_id, now),
            result matches Ok(response) ==> response.user@ == user@ && is_session(
                final(db)@,
                self.keys(),
                response@,
                record_id,
                now,
            ) && subject_is(response.token@, self.keys().access_secret, user.id) && on_record(
                final(db)@,
                response.refresh_token@,
                user.id,
            ),
    {
        let (token, refresh_token) = match self.sign_pair(db, user, record_id, now) {
            Ok(pair) => pair,
            Err(error) => {
                return Err(error);
            },
        };
        self.store_record(db, user.id, refresh_token.as_str(), record_id, now);
        Ok(AuthResponse { user: user.clone(), token, refresh_token, expires_in: EXPIRES_IN })
    }

    /// Issues a pair of tokens to `user` at the current time, under a fresh
    /// record identifier.
    pub fn generate_tokens(&self, db: &mut Database, user: &User) -> (result: Result<
        AuthResponse,
        AuthError,
    >)
        ensures
            is_issue(old(db)@, self.keys(), user@, response_result(result), final(db)@),
            result is Err ==> final(db)@ == old(db)@,
            result matches Ok(response) ==> subject_is(
                response.token@,
                self.keys().access_secret,
                user.id,
            ) && on_record(final(db)@, response.refresh_token@, user.id),
    {
        let record_id = new_id();
        let at = now();
        let result = self.generate_tokens_at(db, user, record_id, at);
        assert(response_result(result) == issue_result(
            old(db)@,
            self.keys(),
            user@,
            record_id,
            at,
        ));
        result
    }

    /// Registers a user with the password hash, identifiers and time given.
    /// The new user has the role `user`, an unverified email and no name,
    /// avatar or login. The response carries the new user and a pair of
    /// tokens; the access token's subject is the new user, and the refresh
    /// token is on record for that user.
    pub fn register_with(
        &self,
        db: &mut Database,
        request: &RegisterRequest,
        password_hash: String,
        user_id: u128,
        record_id: u128,
        now: u64,
    ) -> (result: Result<AuthResponse, AuthError>)
        ensures
            response_result(result) == register_result(
                old(db)@,
                self.keys(),
                request.email@,
                request.agree_to_terms,
                password_hash@,
                user_id,
                record_id,
                now,
            ),
            final(db)@ == register_db(
                old(db)@,
                self.keys(),
                request.email@,
                request.agree_to_terms,
                password_hash@,
                user_id,
                record_id,
                now,
            ),
            result is Ok <==> old(db)@.user_by_email(request.email@) is None
                && old(db)@.user_by_id(user_id) is None && can_issue(old(db)@, record_id, now),
            result matches Ok(response) ==> response.user.id == user_id && is_session(
                final(db)@,
                self.keys(),
                response@,
                record_id,
                now,
            ) && subject_is(response.token@, self.keys().access_secret, user_id) && on_record(
                final(db)@,
                response.refresh_token@,
                user_id,
            ) && final(db)@.user_by_id(user_id) is Some,
    {
        if db.find_user_by_email(request.email.as_str()).is_some() {
            return Err(AuthError::AlreadyExists);
        }
        if db.find_user_by_id(user_id).is_some() {
            return Err(AuthError::Internal);
        }
        let row = UserRow {
            id: user_id,
            email: request.email.clone(),
            password_hash,
            name: None,
            avatar_url: None,
            role: "user".to_string(),
            email_verified: false,
            terms_accepted: request.agree_to_terms,
            created_at: now,
            updated_at: now,
            last_login: None,
        };
        let user = User::from(row.clone());
        assert(user@ == row@.user());
        assert(row@ == new_user_row(
            request.email@,
            request.agree_to_terms,
            password_hash@,
            user_id,
            now,
        ));
        let (token, refresh_token) = match self.sign_pair(db, &user, record_id, now) {
            Ok(pair) => pair,
            Err(error) => {
                return Err(error);
            },
        };
        match db.insert_user(row) {
            Ok(_) => {},
            Err(error) => {
                return Err(error);
            },
        }
        self.store_record(db, user_id, refresh_token.as_str(), record_id, now);
        Ok(AuthResponse { user, token, refresh_token, expires_in: EXPIRES_IN })
    }

    /// Registers a user: hashes the password with a fresh salt, draws the
    /// identifiers and reads the clock. An email that is taken is refused
    /// with `AlreadyExists` before anything else is done; every other
    /// failure is `Internal`; and a failure leaves the store as it was.
    pub fn register(&self, db: &mut Database, request: RegisterRequest) -> (result: Result<
        AuthResponse,
        AuthError,
    >)
        ensures
            is_registration(
                old(db)@,
                self.keys(),
                request.email@,
                request.password@,
                request.agree_to_terms,
                response_result(result),
                final(db)@,
            ),
            result matches Ok(response) ==> subject_is(
                response.token@,
                self.keys().access_secret,
                response.user.id,
            ) && on_record(final(db)@, response.refresh_token@, response.user.id),
    {
        if db.find_user_by_email(request.email.as_str()).is_some() {
            return Err(AuthError::AlreadyExists);
        }
        let password_hash = match hash_password(request.password.as_str(), self.cost) {
            Ok(hash) => hash,
            Err(_) => {
                return Err(AuthError::Internal);
            },
        };
        let user_id = new_id();
        let record_id = new_id();
        let at = now();
        let result = self.register_with(db, &request, password_hash, user_id, record_id, at);
        proof {
            if result is Ok {
                assert(response_result(result) == register_result(
                    old(db)@,
                    self.keys(),
                    request.email@,
                    request.agree_to_terms,
                    password_hash@,
                    user_id,
                    record_id,
                    at,
                ));
            }
        }
        result
    }

    /// Logs a user in at the time `now`. An unknown email and a wrong
    /// password give the same error, `InvalidCredentials`. With the right
    /// password the login succeeds wherever tokens can be issued under
    /// `record_id`: the user's last login is then `now`, and the refresh
    /// token is on record under `record_id`.
    pub fn login_at(&self, db: &mut Database, request: &LoginRequest, record_id: u128, now: u64)
        -> (result: Result<AuthResponse, AuthError>)
        ensures
            response_result(result) == login_result(
                old(db)@,
                self.keys(),
                request.email@,
                request.password@,
                record_id,
                now,
            ),
            final(db)@ == login_db(
                old(db)@,
                self.keys(),
                request.email@,
                request.password@,
                record_id,
                now,
            ),
            result is Ok <==> credentials_verdict(old(db)@, request.email@, request.password@)
                is Ok && can_issue(old(db)@, record_id, now),
            result matches Ok(response) ==> is_session(
                final(db)@,
                self.keys(),
                response@,
                record_id,
                now,
            ) && subject_is(response.token@, self.keys().access_secret, response.user.id)
                && on_record(final(db)@, response.refresh_token@, response.user.id),
    {
        let row = match db.find_user_by_email(request.email.as_str()) {
            Some(row) => row,
            None => {
                return Err(AuthError::InvalidCredentials);
            },
        };
        match verify_password(request.password.as_str(), row.password_hash.as_str()) {
            Ok(true) => {},
            Ok(false) => {
                return Err(AuthError::InvalidCredentials);
            },
            Err(_) => {
                return Err(AuthError::Internal);
            },
        }
        let mut user = User::from(row);
        user.last_login = Some(now);
        assert(user@ == logged_in(row@, now).user());
        let (token, refresh_token) = match self.sign_pair(db, &user, record_id, now) {
            Ok(pair) => pair,
            Err(error) => {
                return Err(error);
            },
        };
        db.update_last_login(user.id, now);
        self.store_record(db, user.id, refresh_token.as_str(), record_id, now);
        Ok(AuthResponse { user, token, refresh_token, expires_in: EXPIRES_IN })
    }

    /// Logs a user in at the current time, under a fresh record identifier.
    pub fn login(&self, db: &mut Database, request: LoginRequest) -> (result: Result<
        AuthResponse,
        AuthError,
    >)
        ensures
            is_login(
                old(db)@,
                self.keys(),
                request.email@,
                request.password@,
                response_result(result),
                final(db)@,
            ),
            result is Err ==> final(db)@ == old(db)@,
            credentials_verdict(old(db)@, request.email@, request.password@) matches Err(refusal)
                ==> response_result(result) == Err::<AuthResponseView, AuthError>(refusal),
            result matches Ok(response) ==> subject_is(
                response.token@,
                self.keys().access_secret,
                response.user.id,
            ) && on_record(final(db)@, response.refresh_token@, response.user.id),
    {
        let record_id = new_id();
        let at = now();
        let result = self.login_at(db, &request, record_id, at);
        assert(response_result(result) == login_result(
            old(db)@,
            self.keys(),
            request.email@,
            request.password@,
            record_id,
            at,
        ));
        result
    }

    /// Ends every session of the user `user_id`: all of the user's records
    /// are removed. It succeeds whether or not the user had any.
    pub fn logout(&self, db: &mut Database, user_id: u128) -> (result: Result<(), AuthError>)
        ensures
            result is Ok,
            final(db)@ == old(db)@.without_records_of(user_id),
    {
        db.delete_all_for_user(user_id);
        Ok(())
    }

    /// Exchanges a refresh token for a new pair of tokens at the time `now`.
    /// The presented token must verify under the refresh secret, and the
    /// record that it names must be in the store, hold its hash and not have
    /// expired; every such failure is `InvalidToken`. On success exactly one
    /// record, that of the presented token, is removed, and exactly one,
    /// that of the new refresh token, is added under `record_id`. The new
    /// tokens are of another issue than the presented one, and the presented
    /// token cannot be used again.
    pub fn refresh_token_at(
        &self,
        db: &mut Database,
        refresh_token: &str,
        record_id: u128,
        now: u64,
    ) -> (result: Result<AuthResponse, AuthError>)
        ensures
            response_result(result) == rotate_result(
                old(db)@,
                self.keys(),
                refresh_token@,
                record_id,
                now,
            ),
            final(db)@ == rotate_db(old(db)@, self.keys(), refresh_token@, record_id, now),
            result matches Ok(response) ==> is_session(
                final(db)@,
                self.keys(),
                response@,
                record_id,
                now,
            ) && subject_is(response.token@, self.keys().access_secret, response.user.id)
                && on_record(final(db)@, response.refresh_token@, response.user.id)
                && final(db)@.user_by_id(response.user.id) is Some,
            result matches Ok(response) ==> response.refresh_token@ != refresh_token@,
            result is Ok ==> issue_of(refresh_token@, self.keys().refresh_secret) != Some(
                record_id,
            ),
            result is Ok ==> final(db)@.refresh_tokens.len() == old(db)@.refresh_tokens.len(),
            result is Ok ==> presented_record(final(db)@, self.keys(), refresh_token@, now) is Err,
    {
        let claims = match self.jwt_keys.verify_refresh_token_at(refresh_token, now) {
            Ok(claims) => claims,
            Err(_) => {
                return Err(AuthError::InvalidToken);
            },
        };
        let presented_id = match parse_id(claims.jti.as_str()) {
            Some(id) => id,
            None => {
                return Err(AuthError::InvalidToken);
            },
        };
        let token_hash = hash_token(refresh_token);
        let record = match db.find_valid_record(token_hash.as_str(), presented_id, now) {
            Some(record) => record,
            None => {
                return Err(AuthError::InvalidToken);
            },
        };
        let row = match db.find_user_by_id(record.user_id) {
            Some(row) => row,
            None => {
                return Err(AuthError::NotFound);
            },
        };
        let user = User::from(row);
        let (token, new_refresh_token) = match self.sign_pair(db, &user, record_id, now) {
            Ok(pair) => pair,
            Err(error) => {
                return Err(error);
            },
        };
        proof {
            lemma_removal_keeps_ids_free(old(db)@, has_other_record_id(presented_id), record_id);
            lemma_rotation_spends(old(db)@, self.keys(), refresh_token@, record_id, now);
        }
        db.delete_record(presented_id);
        self.store_record(db, user.id, new_refresh_token.as_str(), record_id, now);
        proof {
            lemma_spent_token_is_refused(db@, self.keys(), refresh_token@, record_id, now);
        }
        Ok(AuthResponse { user, token, refresh_token: new_refresh_token, expires_in: EXPIRES_IN })
    }

    /// Exchanges a refresh token for a new pair of tokens at the current
    /// time, under a fresh record identifier. The new refresh token is not
    /// the presented one.
    pub fn refresh_token(&self, db: &mut Database, refresh_token: String) -> (result: Result<
        AuthResponse,
        AuthError,
    >)
        ensures
            is_rotation(
                old(db)@,
                self.keys(),
                refresh_token@,
                response_result(result),
                final(db)@,
            ),
            result is Err ==> final(db)@ == old(db)@,
            result matches Ok(response) ==> subject_is(
                response.token@,
                self.keys().access_secret,
                response.user.id,
            ) && on_record(final(db)@, response.refresh_token@, response.user.id)
                && response.refresh_token@ != refresh_token@ && final(db)@.refresh_tokens.len()
                == old(db)@.refresh_tokens.len(),
    {
        let record_id = new_id();
        let at = now();
        let result = self.refresh_token_at(db, refresh_token.as_str(), record_id, at);
        assert(response_result(result) == rotate_result(
            old(db)@,
            self.keys(),
            refresh_token@,
            record_id,
            at,
        ));
        result
    }
}

} // verus!
