//! Signed access and refresh tokens.
//!
//! A token is an HS256 JSON Web Token. Access tokens carry the user's
//! identifier, email and role and live for ten minutes; refresh tokens carry
//! no email and no role and live for seven days. The two kinds are signed
//! with two independent secrets. Expiry is judged against a clock value that
//! the caller passes in, so that every check is a function of its arguments.
//!
//! Every token also carries, as `jti`, the identifier of the issue that made
//! it. Two issues under different identifiers make different tokens, even
//! for one user in one second.

use vstd::prelude::*;
use crate::error::AuthError;
use crate::models::auth::Claims;
use crate::models::auth::ClaimsView;
use crate::models::auth::RefreshClaims;
use crate::models::auth::RefreshClaimsView;
use crate::models::user::User;
use crate::models::user::UserView;
use crate::models::user::text_of;
use crate::utils::clock::is_clock_value;
use crate::utils::clock::now;
use crate::utils::ident::id_to_string;
use crate::utils::ident::is_random_uuid;
use crate::utils::ident::new_id;
use crate::utils::ident::uuid_parsing;
use crate::utils::ident::uuid_string;

verus! {

/// Lifetime of an access token, in seconds: ten minutes.
pub const ACCESS_TOKEN_TTL: u64 = 600;

/// Lifetime of a refresh token, in seconds: seven days.
pub const REFRESH_TOKEN_TTL: u64 = 604800;

/// The claims found in a decoded token, each present only if the token's
/// payload has a member of that name and of the right JSON type.
#[derive(Debug)]
pub struct RawClaims {
    pub sub: Option<String>,
    pub email: Option<String>,
    pub role: Option<String>,
    pub jti: Option<String>,
    pub exp: Option<u64>,
    pub iat: Option<u64>,
}

/// The mathematical value of [`RawClaims`].
pub ghost struct RawClaimsView {
    pub sub: Option<Seq<char>>,
    pub email: Option<Seq<char>>,
    pub role: Option<Seq<char>>,
    pub jti: Option<Seq<char>>,
    pub exp: Option<u64>,
    pub iat: Option<u64>,
}

impl View for RawClaims {
    type V = RawClaimsView;

    open spec fn view(&self) -> RawClaimsView {
        RawClaimsView {
            sub: text_of(self.sub),
            email: text_of(self.email),
            role: text_of(self.role),
            jti: text_of(self.jti),
            exp: self.exp,
            iat: self.iat,
        }
    }
}

/// The token that `jsonwebtoken::encode` makes, with the default HS256
/// header, of the claims given and the secret. A claim that is `None` is
/// left out of the payload.
pub uninterp spec fn jwt_encoding(
    sub: Seq<char>,
    email: Option<Seq<char>>,
    role: Option<Seq<char>>,
    jti: Seq<char>,
    exp: nat,
    iat: nat,
    secret: Seq<char>,
) -> Seq<char>;

/// The claims that `jsonwebtoken::decode` finds in a token under a secret,
/// with HS256 alone allowed, `exp` required and no check against the clock;
/// `None` where it reports an error (malformed token, wrong signature or
/// algorithm, no `exp`).
pub uninterp spec fn jwt_decoding(token: Seq<char>, secret: Seq<char>) -> Option<RawClaimsView>;

/// The error type of `jsonwebtoken`. The library reads nothing in a value of
/// it: an error of signing is an internal failure, an error of decoding an
/// invalid token.
#[verifier::external_type_specification]
#[verifier::external_body]
pub struct ExJwtError(jsonwebtoken::errors::Error);

/// What decoding finds in a token made of access claims.
pub open spec fn access_payload(claims: ClaimsView) -> RawClaimsView {
    RawClaimsView {
        sub: Some(claims.sub),
        email: Some(claims.email),
        role: Some(claims.role),
        jti: Some(claims.jti),
        exp: Some(claims.exp as u64),
        iat: Some(claims.iat as u64),
    }
}

/// What decoding finds in a token made of refresh claims.
pub open spec fn refresh_payload(claims: RefreshClaimsView) -> RawClaimsView {
    RawClaimsView {
        sub: Some(claims.sub),
        email: None,
        role: None,
        jti: Some(claims.jti),
        exp: Some(claims.exp as u64),
        iat: Some(claims.iat as u64),
    }
}

/// Calls `jsonwebtoken::encode` with the default header on a JSON object of
/// the six access claims, keyed by `EncodingKey::from_secret`. With an HMAC
/// key and a payload of texts and integers the crate has no path on which
/// it fails, so a token is returned. The token depends on the claims and the
/// secret alone, and decodes under the same secret to the same claims.
#[verifier::external_body]
fn encode_access_claims(claims: &Claims, secret: &str) -> (encoded: Result<
    String,
    jsonwebtoken::errors::Error,
>)
    ensures
        encoded is Ok,
        encoded matches Ok(token) ==> token@ == jwt_encoding(
            claims.sub@,
            Some(claims.email@),
            Some(claims.role@),
            claims.jti@,
            claims.exp as nat,
            claims.iat as nat,
            secret@,
        ) && jwt_decoding(token@, secret@) == Some(access_payload(claims@)),
{
    let mut payload = serde_json::Map::new();
    payload.insert("sub".to_string(), claims.sub.clone().into());
    payload.insert("email".to_string(), claims.email.clone().into());
    payload.insert("role".to_string(), claims.role.clone().into());
    payload.insert("jti".to_string(), claims.jti.clone().into());
    payload.insert("exp".to_string(), claims.exp.into());
    payload.insert("iat".to_string(), claims.iat.into());
    let key = jsonwebtoken::EncodingKey::from_secret(secret.as_bytes());
    jsonwebtoken::encode(&jsonwebtoken::Header::default(), &payload, &key)
}

/// Calls `jsonwebtoken::encode` with the default header on a JSON object of
/// the four refresh claims, keyed by `EncodingKey::from_secret`. With an
/// HMAC key and a payload of texts and integers the crate has no path on
/// which it fails, so a token is returned. The token depends on the claims
/// and the secret alone, and decodes under the same secret to the same
/// claims.
#[verifier::external_body]
fn encode_refresh_claims(claims: &RefreshClaims, secret: &str) -> (encoded: Result<
    String,
    jsonwebtoken::errors::Error,
>)
    ensures
        encoded is Ok,
        encoded matches Ok(token) ==> token@ == jwt_encoding(
            claims.sub@,
            None,
            None,
            claims.jti@,
            claims.exp as nat,
            claims.iat as nat,
            secret@,
        ) && jwt_decoding(token@, secret@) == Some(refresh_payload(claims@)),
{
    let mut payload = serde_json::Map::new();
    payload.insert("sub".to_string(), claims.sub.clone().into());
    payload.insert("jti".to_string(), claims.jti.clone().into());
    payload.insert("exp".to_string(), claims.exp.into());
    payload.insert("iat".to_string(), claims.iat.into());
    let key = jsonwebtoken::EncodingKey::from_secret(secret.as_bytes());
    jsonwebtoken::encode(&jsonwebtoken::Header::default(), &payload, &key)
}

/// Calls `jsonwebtoken::decode` for a JSON value, keyed by
/// `DecodingKey::from_secret`, with the default validation but for the check
/// of `exp` against the system clock, which is switched off. It then picks
/// the six claims out of the payload: a text claim where the member is a
/// JSON string, a time where it is a non-negative integer below 2^64.
#[verifier::external_body]
fn decode_claims(token: &str, secret: &str) -> (decoded: Result<
    RawClaims,
    jsonwebtoken::errors::Error,
>)
    ensures
        decoded is Ok <==> jwt_decoding(token@, secret@) is Some,
        decoded matches Ok(claims) ==> jwt_decoding(token@, secret@) == Some(claims@),
{
    let mut validation = jsonwebtoken::Validation::default();
    validation.validate_exp = false;
    let key = jsonwebtoken::DecodingKey::from_secret(secret.as_bytes());
    let payload = jsonwebtoken::decode::<serde_json::Value>(token, &key, &validation)?.claims;
    let text = |name: &str| payload.get(name).and_then(|v| v.as_str()).map(|s| s.to_string());
    let time = |name: &str| payload.get(name).and_then(|v| v.as_u64());
    let (sub, email, role, jti) = (text("sub"), text("email"), text("role"), text("jti"));
    Ok(RawClaims { sub, email, role, jti, exp: time("exp"), iat: time("iat") })
}

/// Whether a token that lives for `ttl` seconds can be issued at `now`: its
/// expiry time must fit the claims' integer type.
pub open spec fn clock_in_range(now: u64, ttl: u64) -> bool {
    now + ttl <= usize::MAX
}

/// The claims of the access token that the issue `jti` makes for `user` at
/// `now`.
pub open spec fn access_claims_at(user: UserView, jti: u128, now: u64) -> ClaimsView {
    ClaimsView {
        sub: uuid_string(user.id),
        email: user.email,
        role: user.role,
        jti: uuid_string(jti),
        exp: (now + ACCESS_TOKEN_TTL) as nat,
        iat: now as nat,
    }
}

/// The claims of the refresh token that the issue `jti` makes for the user
/// `user_id` at `now`.
pub open spec fn refresh_claims_at(user_id: u128, jti: u128, now: u64) -> RefreshClaimsView {
    RefreshClaimsView {
        sub: uuid_string(user_id),
        jti: uuid_string(jti),
        exp: (now + REFRESH_TOKEN_TTL) as nat,
        iat: now as nat,
    }
}

/// The access token that the issue `jti` makes for `user` at `now` under
/// `secret`: none where the clock is out of range.
pub open spec fn access_token_at(user: UserView, jti: u128, now: u64, secret: Seq<char>) -> Option<
    Seq<char>,
> {
    if clock_in_range(now, ACCESS_TOKEN_TTL) {
        Some(
            jwt_encoding(
                uuid_string(user.id),
                Some(user.email),
                Some(user.role),
                uuid_string(jti),
                (now + ACCESS_TOKEN_TTL) as nat,
                now as nat,
                secret,
            ),
        )
    } else {
        None
    }
}

/// The refresh token that the issue `jti` makes for the user `user_id` at
/// `now` under `secret`: none where the clock is out of range.
pub open spec fn refresh_token_at(user_id: u128, jti: u128, now: u64, secret: Seq<char>)
    -> Option<Seq<char>> {
    if clock_in_range(now, REFRESH_TOKEN_TTL) {
        Some(
            jwt_encoding(
                uuid_string(user_id),
                None,
                None,
                uuid_string(jti),
                (now + REFRESH_TOKEN_TTL) as nat,
                now as nat,
                secret,
            ),
        )
    } else {
        None
    }
}

/// What issuing answers: the token, or an internal failure where there is
/// none.
pub open spec fn issued(token: Option<Seq<char>>) -> Result<Seq<char>, AuthError> {
    match token {
        Some(text) => Ok(text),
        None => Err(AuthError::Internal),
    }
}

/// The access claims that a decoded payload holds: all six must be present,
/// and the times must fit the claims' integer type.
pub open spec fn access_claims_in(raw: RawClaimsView) -> Option<ClaimsView> {
    if raw.sub is Some && raw.email is Some && raw.role is Some && raw.jti is Some
        && raw.exp is Some && raw.iat is Some && raw.exp->0 <= usize::MAX && raw.iat->0
        <= usize::MAX {
        Some(
            ClaimsView {
                sub: raw.sub->0,
                email: raw.email->0,
                role: raw.role->0,
                jti: raw.jti->0,
                exp: raw.exp->0 as nat,
                iat: raw.iat->0 as nat,
            },
        )
    } else {
        None
    }
}

/// The refresh claims that a decoded payload holds: subject, identifier and
/// times must be present, and the times must fit the claims' integer type.
/// Other members are ignored.
pub open spec fn refresh_claims_in(raw: RawClaimsView) -> Option<RefreshClaimsView> {
    if raw.sub is Some && raw.jti is Some && raw.exp is Some && raw.iat is Some && raw.exp->0
        <= usize::MAX && raw.iat->0 <= usize::MAX {
        Some(
            RefreshClaimsView {
                sub: raw.sub->0,
                jti: raw.jti->0,
                exp: raw.exp->0 as nat,
                iat: raw.iat->0 as nat,
            },
        )
    } else {
        None
    }
}

/// The verdict on an access token at `now`: its claims, if it decodes under
/// the secret, holds all access claims and has not expired; `InvalidToken`
/// otherwise. A token is expired once `now` is past its `exp`.
pub open spec fn access_verdict(token: Seq<char>, secret: Seq<char>, now: u64) -> Result<
    ClaimsView,
    AuthError,
> {
    match jwt_decoding(token, secret) {
        Some(raw) => match access_claims_in(raw) {
            Some(claims) => if now <= claims.exp {
                Ok(claims)
            } else {
                Err(AuthError::InvalidToken)
            },
            None => Err(AuthError::InvalidToken),
        },
        None => Err(AuthError::InvalidToken),
    }
}

/// The verdict on a refresh token's signature and expiry at `now`; whether
/// the token is still on record is a separate question, for the store.
pub open spec fn refresh_verdict(token: Seq<char>, secret: Seq<char>, now: u64) -> Result<
    RefreshClaimsView,
    AuthError,
> {
    match jwt_decoding(token, secret) {
        Some(raw) => match refresh_claims_in(raw) {
            Some(claims) => if now <= claims.exp {
                Ok(claims)
            } else {
                Err(AuthError::InvalidToken)
            },
            None => Err(AuthError::InvalidToken),
        },
        None => Err(AuthError::InvalidToken),
    }
}

/// Whether `token` is an access token that verifies at `now` under `secret`
/// and names the user `user_id` as its subject.
pub open spec fn authenticates(token: Seq<char>, secret: Seq<char>, user_id: u128, now: u64)
    -> bool {
    access_verdict(token, secret, now) matches Ok(claims) && uuid_parsing(claims.sub) == Some(
        user_id,
    )
}

/// The identifier of the issue that made `token`, as far as the token
/// decodes under `secret` and carries one.
pub open spec fn issue_of(token: Seq<char>, secret: Seq<char>) -> Option<u128> {
    match jwt_decoding(token, secret) {
        Some(raw) => match raw.jti {
            Some(text) => uuid_parsing(text),
            None => None,
        },
        None => None,
    }
}

/// Whether `token` is the access token that the issue `jti` made for `user`
/// at `now`, as decoding under `secret` shows it: it decodes to exactly the
/// claims of that issue, verifies at `now`, and names `user` and `jti`.
pub open spec fn is_access_token_of(
    token: Seq<char>,
    secret: Seq<char>,
    user: UserView,
    jti: u128,
    now: u64,
) -> bool {
    &&& jwt_decoding(token, secret) == Some(access_payload(access_claims_at(user, jti, now)))
    &&& access_verdict(token, secret, now) == Ok::<ClaimsView, AuthError>(
        access_claims_at(user, jti, now),
    )
    &&& authenticates(token, secret, user.id, now)
    &&& issue_of(token, secret) == Some(jti)
}

/// Whether `token` is the refresh token that the issue `jti` made for the
/// user `user_id` at `now`, as decoding under `secret` shows it.
pub open spec fn is_refresh_token_of(
    token: Seq<char>,
    secret: Seq<char>,
    user_id: u128,
    jti: u128,
    now: u64,
) -> bool {
    &&& jwt_decoding(token, secret) == Some(refresh_payload(refresh_claims_at(user_id, jti, now)))
    &&& refresh_verdict(token, secret, now) == Ok::<RefreshClaimsView, AuthError>(
        refresh_claims_at(user_id, jti, now),
    )
    &&& issue_of(token, secret) == Some(jti)
}

/// An access token expires: if it verifies at the time it was issued, with
/// an expiry ten minutes later, it verifies up to that expiry and is refused
/// with `InvalidToken` at every later time.
pub proof fn lemma_access_token_expires(
    token: Seq<char>,
    secret: Seq<char>,
    issued_at: u64,
    later: u64,
)
    requires
        access_verdict(token, secret, issued_at) matches Ok(claims) && claims.exp == issued_at
            + ACCESS_TOKEN_TTL,
        later >= issued_at,
    ensures
        later <= issued_at + ACCESS_TOKEN_TTL ==> access_verdict(token, secret, later)
            == access_verdict(token, secret, issued_at),
        later > issued_at + ACCESS_TOKEN_TTL ==> access_verdict(token, secret, later) == Err::<
            ClaimsView,
            AuthError,
        >(AuthError::InvalidToken),
{
}

/// A refresh token expires in the same way, seven days after it was issued.
pub proof fn lemma_refresh_token_expires(
    token: Seq<char>,
    secret: Seq<char>,
    issued_at: u64,
    later: u64,
)
    requires
        refresh_verdict(token, secret, issued_at) matches Ok(claims) && claims.exp == issued_at
            + REFRESH_TOKEN_TTL,
        later >= issued_at,
    ensures
        later <= issued_at + REFRESH_TOKEN_TTL ==> refresh_verdict(token, secret, later)
            == refresh_verdict(token, secret, issued_at),
        later > issued_at + REFRESH_TOKEN_TTL ==> refresh_verdict(token, secret, later) == Err::<
            RefreshClaimsView,
            AuthError,
        >(AuthError::InvalidToken),
{
}

/// A refresh token is never accepted as an access token under the secret
/// that it decodes under: it carries no email and no role.
pub proof fn lemma_refresh_token_is_no_access_token(
    token: Seq<char>,
    secret: Seq<char>,
    claims: RefreshClaimsView,
    now: u64,
)
    requires
        jwt_decoding(token, secret) == Some(refresh_payload(claims)),
    ensures
        access_verdict(token, secret, now) == Err::<ClaimsView, AuthError>(
            AuthError::InvalidToken,
        ),
{
}

/// Tokens of different issues are different tokens.
pub proof fn lemma_issues_make_different_tokens(
    first: Seq<char>,
    second: Seq<char>,
    secret: Seq<char>,
)
    requires
        issue_of(first, secret) is Some,
        issue_of(first, secret) != issue_of(second, secret),
    ensures
        first != second,
{
}

/// The view of a result whose success carries [`Claims`].
pub open spec fn claims_result(result: Result<Claims, AuthError>) -> Result<ClaimsView, AuthError> {
    match result {
        Ok(claims) => Ok(claims@),
        Err(error) => Err(error),
    }
}

/// The view of a result whose success carries [`RefreshClaims`].
pub open spec fn refresh_claims_result(result: Result<RefreshClaims, AuthError>) -> Result<
    RefreshClaimsView,
    AuthError,
> {
    match result {
        Ok(claims) => Ok(claims@),
        Err(error) => Err(error),
    }
}

/// The view of a result whose success carries a text.
pub open spec fn text_result(result: Result<String, AuthError>) -> Result<Seq<char>, AuthError> {
    match result {
        Ok(text) => Ok(text@),
        Err(error) => Err(error),
    }
}

/// Whether a token that lives for `ttl` seconds can be issued at `now`.
pub fn clock_allows(now: u64, ttl: u64) -> (allowed: bool)
    ensures
        allowed == clock_in_range(now, ttl),
{
    ttl <= usize::MAX as u64 && now <= usize::MAX as u64 - ttl
}

impl Claims {
    /// The claims of the access token that the issue `jti` makes for `user`
    /// at `now`.
    pub fn issue(user: &User, jti: u128, now: u64) -> (claims: Claims)
        requires
            clock_in_range(now, ACCESS_TOKEN_TTL),
        ensures
            claims@ == access_claims_at(user@, jti, now),
            uuid_parsing(claims.sub@) == Some(user.id),
            uuid_parsing(claims.jti@) == Some(jti),
    {
        Claims {
            sub: id_to_string(user.id),
            email: user.email.clone(),
            role: user.role.clone(),
            jti: id_to_string(jti),
            exp: (now + ACCESS_TOKEN_TTL) as usize,
            iat: now as usize,
        }
    }

    /// Reads access claims out of a decoded payload.
    pub fn from_raw(raw: RawClaims) -> (claims: Option<Claims>)
        ensures
            claims is Some <==> access_claims_in(raw@) is Some,
            claims matches Some(found) ==> access_claims_in(raw@) == Some(found@),
    {
        let RawClaims { sub, email, role, jti, exp, iat } = raw;
        match (sub, email, role, jti, exp, iat) {
            (Some(sub), Some(email), Some(role), Some(jti), Some(exp), Some(iat)) => {
                if exp <= usize::MAX as u64 && iat <= usize::MAX as u64 {
                    Some(Claims { sub, email, role, jti, exp: exp as usize, iat: iat as usize })
                } else {
                    None
                }
            },
            _ => None,
        }
    }
}

impl RefreshClaims {
    /// The claims of the refresh token that the issue `jti` makes for the
    /// user `user_id` at `now`.
    pub fn issue(user_id: u128, jti: u128, now: u64) -> (claims: RefreshClaims)
        requires
            clock_in_range(now, REFRESH_TOKEN_TTL),
        ensures
            claims@ == refresh_claims_at(user_id, jti, now),
            uuid_parsing(claims.sub@) == Some(user_id),
            uuid_parsing(claims.jti@) == Some(jti),
    {
        RefreshClaims {
            sub: id_to_string(user_id),
            jti: id_to_string(jti),
            exp: (now + REFRESH_TOKEN_TTL) as usize,
            iat: now as usize,
        }
    }

    /// Reads refresh claims out of a decoded payload.
    pub fn from_raw(raw: RawClaims) -> (claims: Option<RefreshClaims>)
        ensures
            claims is Some <==> refresh_claims_in(raw@) is Some,
            claims matches Some(found) ==> refresh_claims_in(raw@) == Some(found@),
    {
        let RawClaims { sub, email: _, role: _, jti, exp, iat } = raw;
        match (sub, jti, exp, iat) {
            (Some(sub), Some(jti), Some(exp), Some(iat)) => {
                if exp <= usize::MAX as u64 && iat <= usize::MAX as u64 {
                    Some(RefreshClaims { sub, jti, exp: exp as usize, iat: iat as usize })
                } else {
                    None
                }
            },
            _ => None,
        }
    }
}

/// The two signing secrets: one for access tokens, one for refresh tokens.
#[derive(Debug)]
pub struct JwtKeys {
    pub access_secret: String,
    pub refresh_secret: String,
}

/// The mathematical value of [`JwtKeys`].
pub ghost struct JwtKeysView {
    pub access_secret: Seq<char>,
    pub refresh_secret: Seq<char>,
}

impl View for JwtKeys {
    type V = JwtKeysView;

    open spec fn view(&self) -> JwtKeysView {
        JwtKeysView { access_secret: self.access_secret@, refresh_secret: self.refresh_secret@ }
    }
}

impl JwtKeys {
    /// Holds the two secrets.
    pub fn new(access_secret: String, refresh_secret: String) -> (keys: Self)
        ensures
            keys.access_secret == access_secret,
            keys.refresh_secret == refresh_secret,
    {
        Self { access_secret, refresh_secret }
    }

    /// Issues the access token of `user` under the identifier `jti` at the
    /// time `now`: subject, email and role of the user, valid for ten
    /// minutes from `now`. It fails only where the clock is out of range. A
    /// token that is issued decodes to exactly these claims and verifies at
    /// `now`.
    pub fn generate_access_token_at(&self, user: &User, jti: u128, now: u64) -> (token: Result<
        String,
        AuthError,
    >)
        ensures
            text_result(token) == issued(access_token_at(user@, jti, now, self.access_secret@)),
            token is Ok <==> clock_in_range(now, ACCESS_TOKEN_TTL),
            token matches Ok(text) ==> is_access_token_of(
                text@,
                self.access_secret@,
                user@,
                jti,
                now,
            ),
    {
        if !clock_allows(now, ACCESS_TOKEN_TTL) {
            return Err(AuthError::Internal);
        }
        let claims = Claims::issue(user, jti, now);
        match encode_access_claims(&claims, self.access_secret.as_str()) {
            Ok(text) => Ok(text),
            Err(_) => Err(AuthError::Internal),
        }
    }

    /// Issues the refresh token of `user` under the identifier `jti` at the
    /// time `now`: the subject without email and role, valid for seven days
    /// from `now`. It fails only where the clock is out of range. A token
    /// that is issued decodes to exactly these claims and verifies at `now`;
    /// under the same secret it is no access token.
    pub fn generate_refresh_token_at(&self, user: &User, jti: u128, now: u64) -> (token: Result<
        String,
        AuthError,
    >)
        ensures
            text_result(token) == issued(
                refresh_token_at(user.id, jti, now, self.refresh_secret@),
            ),
            token is Ok <==> clock_in_range(now, REFRESH_TOKEN_TTL),
            token matches Ok(text) ==> is_refresh_token_of(
                text@,
                self.refresh_secret@,
                user.id,
                jti,
                now,
            ),
            token matches Ok(text) ==> forall|at: u64| #[trigger]
                access_verdict(text@, self.refresh_secret@, at) == Err::<ClaimsView, AuthError>(
                    AuthError::InvalidToken,
                ),
    {
        if !clock_allows(now, REFRESH_TOKEN_TTL) {
            return Err(AuthError::Internal);
        }
        let claims = RefreshClaims::issue(user.id, jti, now);
        match encode_refresh_claims(&claims, self.refresh_secret.as_str()) {
            Ok(text) => Ok(text),
            Err(_) => Err(AuthError::Internal),
        }
    }

    /// Checks an access token at the time `now`: signature, structure and
    /// expiry. Every failure is `InvalidToken`.
    pub fn verify_access_token_at(&self, token: &str, now: u64) -> (verdict: Result<
        Claims,
        AuthError,
    >)
        ensures
            claims_result(verdict) == access_verdict(token@, self.access_secret@, now),
    {
        match decode_claims(token, self.access_secret.as_str()) {
            Ok(raw) => match Claims::from_raw(raw) {
                Some(claims) => {
                    if now <= claims.exp as u64 {
                        Ok(claims)
                    } else {
                        Err(AuthError::InvalidToken)
                    }
                },
                None => Err(AuthError::InvalidToken),
            },
            Err(_) => Err(AuthError::InvalidToken),
        }
    }

    /// Checks the signature, structure and expiry of a refresh token at the
    /// time `now`. Every failure is `InvalidToken`.
    pub fn verify_refresh_token_at(&self, token: &str, now: u64) -> (verdict: Result<
        RefreshClaims,
        AuthError,
    >)
        ensures
            refresh_claims_result(verdict) == refresh_verdict(token@, self.refresh_secret@, now),
    {
        match decode_claims(token, self.refresh_secret.as_str()) {
            Ok(raw) => match RefreshClaims::from_raw(raw) {
                Some(claims) => {
                    if now <= claims.exp as u64 {
                        Ok(claims)
                    } else {
                        Err(AuthError::InvalidToken)
                    }
                },
                None => Err(AuthError::InvalidToken),
            },
            Err(_) => Err(AuthError::InvalidToken),
        }
    }

    /// Issues an access token for `user` at the current time, under a fresh
    /// identifier.
    pub fn generate_access_token(&self, user: &User) -> (token: Result<String, AuthError>)
        ensures
            exists|jti: u128, at: u64|
                is_random_uuid(jti) && is_clock_value(at) && text_result(token) == issued(
                    #[trigger] access_token_at(user@, jti, at, self.access_secret@),
                ) && (token matches Ok(text) ==> is_access_token_of(
                    text@,
                    self.access_secret@,
                    user@,
                    jti,
                    at,
                )),
    {
        let jti = new_id();
        let at = now();
        let token = self.generate_access_token_at(user, jti, at);
        assert(text_result(token) == issued(
            access_token_at(user@, jti, at, self.access_secret@),
        ));
        token
    }

    /// Issues a refresh token for `user` at the current time, under a fresh
    /// identifier.
    pub fn generate_refresh_token(&self, user: &User) -> (token: Result<String, AuthError>)
        ensures
            exists|jti: u128, at: u64|
                is_random_uuid(jti) && is_clock_value(at) && text_result(token) == issued(
                    #[trigger] refresh_token_at(user.id, jti, at, self.refresh_secret@),
                ) && (token matches Ok(text) ==> is_refresh_token_of(
                    text@,
                    self.refresh_secret@,
                    user.id,
                    jti,
                    at,
                )),
            token matches Ok(text) ==> forall|at: u64| #[trigger]
                access_verdict(text@, self.refresh_secret@, at) == Err::<ClaimsView, AuthError>(
                    AuthError::InvalidToken,
                ),
    {
        let jti = new_id();
        let at = now();
        let token = self.generate_refresh_token_at(user, jti, at);
        assert(text_result(token) == issued(
            refresh_token_at(user.id, jti, at, self.refresh_secret@),
        ));
        token
    }

    /// Checks an access token at the current time.
    pub fn verify_access_token(&self, token: &str) -> (verdict: Result<Claims, AuthError>)
        ensures
            exists|at: u64|
                is_clock_value(at) && claims_result(verdict) == #[trigger] access_verdict(
                    token@,
                    self.access_secret@,
                    at,
                ),
    {
        self.verify_access_token_at(token, now())
    }

    /// Checks the signature, structure and expiry of a refresh token at the
    /// current time.
    pub fn verify_refresh_token(&self, token: &str) -> (verdict: Result<RefreshClaims, AuthError>)
        ensures
            exists|at: u64|
                is_clock_value(at) && refresh_claims_result(verdict) == #[trigger] refresh_verdict(
                    token@,
                    self.refresh_secret@,
                    at,
                ),
    {
        self.verify_refresh_token_at(token, now())
    }
}

} // verus!
