//! Password hashing with bcrypt, and the one-way hash under which refresh
//! tokens are stored.

use vstd::prelude::*;
use crate::error::AuthError;
use sha2::Digest;

verus! {

/// The work factor used where none is configured.
pub const DEFAULT_COST: u32 = 12;

/// The smallest work factor that bcrypt accepts.
pub const MIN_COST: u32 = 4;

/// The largest work factor that bcrypt accepts.
pub const MAX_COST: u32 = 31;

/// What `bcrypt::verify` answers for a password and a stored hash: whether
/// they match, or `None` where it reports an error (a malformed hash).
pub uninterp spec fn bcrypt_verification(password: Seq<char>, hash: Seq<char>) -> Option<bool>;

/// The SHA-256 digest of the UTF-8 bytes of `text`, in lower-case
/// hexadecimal.
pub uninterp spec fn sha256_hex(text: Seq<char>) -> Seq<char>;

/// The error type of `bcrypt`. The library reads nothing in a value of it:
/// every such error is an internal failure.
#[verifier::external_type_specification]
#[verifier::external_body]
pub struct ExBcryptError(bcrypt::BcryptError);

/// Calls `bcrypt::hash`, which salts with fresh random bytes. A hash that
/// it returns is one that `bcrypt::verify` accepts for the same password, and
/// it returns none for a work factor outside 4 to 31.
#[verifier::external_body]
fn bcrypt_hash(password: &str, cost: u32) -> (hashed: Result<String, bcrypt::BcryptError>)
    ensures
        hashed matches Ok(hash) ==> bcrypt_verification(password@, hash@) == Some(true),
        hashed is Ok ==> MIN_COST <= cost <= MAX_COST,
{
    bcrypt::hash(password, cost)
}

/// Calls `bcrypt::verify`, whose answer depends on the password and the hash
/// alone.
#[verifier::external_body]
fn bcrypt_verify(password: &str, hash: &str) -> (verified: Result<bool, bcrypt::BcryptError>)
    ensures
        verified is Ok <==> bcrypt_verification(password@, hash@) is Some,
        verified matches Ok(matches) ==> bcrypt_verification(password@, hash@) == Some(matches),
{
    bcrypt::verify(password, hash)
}

/// Calls `sha2::Sha256::digest` on the bytes of `text` and formats the digest
/// in lower-case hexadecimal.
#[verifier::external_body]
fn sha256_digest_hex(text: &str) -> (digest: String)
    ensures
        digest@ == sha256_hex(text@),
{
    format!("{:x}", sha2::Sha256::digest(text.as_bytes()))
}

/// What a password check yields for each answer of the hash function: an
/// error of the hash function is an internal failure.
pub open spec fn password_check(verification: Option<bool>) -> Result<bool, AuthError> {
    match verification {
        Some(matches) => Ok(matches),
        None => Err(AuthError::Internal),
    }
}

/// Hashes a password with a fresh salt at the given work factor. A hash that
/// is returned verifies against the same password; a work factor outside 4
/// to 31 is an internal failure, as is a failure of the random source.
pub fn hash_password(password: &str, cost: u32) -> (hashed: Result<String, AuthError>)
    ensures
        hashed matches Ok(hash) ==> bcrypt_verification(password@, hash@) == Some(true),
        hashed matches Err(error) ==> error == AuthError::Internal,
        !(MIN_COST <= cost <= MAX_COST) ==> hashed is Err,
{
    match bcrypt_hash(password, cost) {
        Ok(hash) => Ok(hash),
        Err(_) => Err(AuthError::Internal),
    }
}

/// Checks a password against a stored hash.
pub fn verify_password(password: &str, hash: &str) -> (verified: Result<bool, AuthError>)
    ensures
        verified == password_check(bcrypt_verification(password@, hash@)),
{
    match bcrypt_verify(password, hash) {
        Ok(matches) => Ok(matches),
        Err(_) => Err(AuthError::Internal),
    }
}

/// The one-way hash under which a refresh token is stored and looked up.
pub fn hash_token(token: &str) -> (hash: String)
    ensures
        hash@ == sha256_hex(token@),
{
    sha256_digest_hex(token)
}

} // verus!
