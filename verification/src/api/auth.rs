//! Authentication: registration checks and password hashing with bcrypt.

use crate::db::byte_len;
use vstd::prelude::*;
use vstd::string::*;

verus! {

pub struct RegisterRequest {
    pub username: String,
    pub password: String,
}

pub struct LoginRequest {
    pub username: String,
    pub password: String,
}

pub struct AuthResponse {
    pub token: String,
    pub user_id: i64,
    pub username: String,
}

pub struct UserResponse {
    pub id: i64,
    pub username: String,
}

#[derive(Debug)]
pub struct ErrorResponse {
    pub error: String,
}

/// bcrypt work factor of stored password hashes.
pub const BCRYPT_COST: u32 = 12;

/// Whether `bcrypt::verify` accepts a password (its UTF-8 bytes) for a hash:
/// `Some(matches)`, or `None` when the hash is malformed.
pub uninterp spec fn bcrypt_verify(password: Seq<u8>, hash: Seq<char>) -> Option<bool>;

/// The start of a bcrypt hash string of a cost in `4..=31`: `$2b$`, the
/// cost in two decimal digits, and `$`.
pub open spec fn bcrypt_prefix(cost: u32) -> Seq<char> {
    seq!['$', '2', 'b', '$', (48 + cost / 10) as char, (48 + cost % 10) as char, '$']
}

/// Calls `bcrypt::hash` with a random salt. It fails when the cost is outside
/// 4..=31 or the OS has no randomness; the error is the `BcryptError`
/// message. A hash it gives starts with `$2b$`, the two-digit cost and `$`,
/// and verifies with the same password; the salt, and so the rest of the
/// hash, is random and not stated.
#[verifier::external_body]
fn bcrypt_hash(password: &str, cost: u32) -> (res: Result<String, String>)
    ensures
        !(4 <= cost <= 31) ==> res is Err,
        res matches Ok(h) ==> h@.len() >= 7 && h@.subrange(0, 7) == bcrypt_prefix(cost),
        res matches Ok(h) ==> bcrypt_verify(password.spec_bytes(), h@) == Some(true),
{
    bcrypt::hash(password, cost).map_err(|e| e.to_string())
}

/// Calls `bcrypt::verify`; the error is the `BcryptError` message.
#[verifier::external_body]
fn bcrypt_check(password: &str, hash: &str) -> (res: Result<bool, String>)
    ensures
        match res {
            Ok(b) => bcrypt_verify(password.spec_bytes(), hash@) == Some(b),
            Err(_) => bcrypt_verify(password.spec_bytes(), hash@) is None,
        },
{
    bcrypt::verify(password, hash).map_err(|e| e.to_string())
}

/// Checks a registration: the username needs at least three bytes, the
/// password at least six.
pub fn validate_registration(req: &RegisterRequest) -> (res: Result<(), ErrorResponse>)
    ensures
        byte_len(req.username@) < 3 ==> (res matches Err(e) && e.error@ == "Username must be at least 3 characters"@),
        byte_len(req.username@) >= 3 && byte_len(req.password@) < 6
            ==> (res matches Err(e) && e.error@ == "Password must be at least 6 characters"@),
        res is Ok <==> (byte_len(req.username@) >= 3 && byte_len(req.password@) >= 6),
{
    if req.username.as_str().len() < 3 {
        return Err(ErrorResponse { error: "Username must be at least 3 characters".to_string() });
    }
    if req.password.as_str().len() < 6 {
        return Err(ErrorResponse { error: "Password must be at least 6 characters".to_string() });
    }
    Ok(())
}

/// The bcrypt hash (cost 12) under which a new password is stored; a hash it
/// gives verifies with that password.
pub fn hash_password(password: &str) -> (res: Result<String, ErrorResponse>)
    ensures
        res matches Ok(h) ==> h@.len() >= 7 && h@.subrange(0, 7) == "$2b$12$"@,
        res matches Ok(h) ==> bcrypt_verify(password.spec_bytes(), h@) == Some(true),
        res matches Err(e) ==> e.error@ == "Internal server error"@,
{
    proof {
        reveal_strlit("$2b$12$");
        assert(bcrypt_prefix(BCRYPT_COST) =~= "$2b$12$"@);
    }
    match bcrypt_hash(password, BCRYPT_COST) {
        Ok(h) => Ok(h),
        Err(_) => Err(ErrorResponse { error: "Internal server error".to_string() }),
    }
}

/// Checks a login against the user found by name (id, name, password hash):
/// gives the user's id and name when the password matches.
///
/// A password that was stored with [`hash_password`] logs in.
pub fn check_login(user: Option<(i64, String, String)>, password: &str) -> (res: Result<(i64, String), ErrorResponse>)
    ensures
        user is None ==> (res matches Err(e) && e.error@ == "Invalid username or password"@),
        user matches Some(u) ==> match bcrypt_verify(password.spec_bytes(), u.2@) {
            Some(true) => res matches Ok(r) && r.0 == u.0 && r.1 == u.1,
            Some(false) => res matches Err(e) && e.error@ == "Invalid username or password"@,
            None => res matches Err(e) && e.error@ == "Internal server error"@,
        },
{
    let (id, username, hash) = match user {
        Some(u) => u,
        None => return Err(ErrorResponse { error: "Invalid username or password".to_string() }),
    };
    match bcrypt_check(password, hash.as_str()) {
        Ok(true) => Ok((id, username)),
        Ok(false) => Err(ErrorResponse { error: "Invalid username or password".to_string() }),
        Err(_) => Err(ErrorResponse { error: "Internal server error".to_string() }),
    }
}

/// Checks that a registration's user name is free, from the lookup of the
/// name: taken, free, or the database error.
pub fn check_username_free(lookup: Result<bool, String>) -> (res: Result<(), ErrorResponse>)
    ensures
        lookup == Ok::<bool, String>(false) <==> res is Ok,
        lookup == Ok::<bool, String>(true) ==> (res matches Err(e) && e.error@ == "Username already exists"@),
        lookup is Err ==> (res matches Err(e) && e.error@ == "Internal server error"@),
{
    match lookup {
        Ok(false) => Ok(()),
        Ok(true) => Err(ErrorResponse { error: "Username already exists".to_string() }),
        Err(_) => Err(ErrorResponse { error: "Internal server error".to_string() }),
    }
}

/// How long a session token stays valid, in seconds: a day.
pub const TOKEN_LIFETIME_SECS: i64 = 86400;

/// The expiry of a session token issued at `now` (Unix seconds); `None` when
/// it does not fit in an `i64`.
pub fn token_expiry(now: i64) -> (exp: Option<i64>)
    ensures
        exp == if now <= i64::MAX - TOKEN_LIFETIME_SECS { Some((now + TOKEN_LIFETIME_SECS) as i64) } else { None::<i64> },
{
    if now <= i64::MAX - TOKEN_LIFETIME_SECS {
        Some(now + TOKEN_LIFETIME_SECS)
    } else {
        None
    }
}

} // verus!
