//! The claims that session and file tokens carry, and password hashing.

use vstd::prelude::*;
use crate::model::User;
use sha2::Digest;

verus! {

/// The caller a session token names.
#[derive(Debug, Clone)]
pub struct TokenUser {
    pub id: i64,
    pub email: String,
}

/// The file a storage token grants.
#[derive(Debug, Clone)]
pub struct TokenFile {
    pub unique_name: String,
}

/// A session token's claims: issued at `iat`, expiring at `exp`, in seconds
/// since the epoch.
#[derive(Debug, Clone)]
pub struct AuthTokenClaims {
    pub user: TokenUser,
    pub iat: usize,
    pub exp: usize,
}

/// A storage token's claims.
#[derive(Debug, Clone)]
pub struct StorageTokenClaims {
    pub file: TokenFile,
    pub iat: usize,
    pub exp: usize,
}

/// The secrets that sign session and storage tokens.
#[derive(Debug, Clone)]
pub struct Utils {
    pub auth_secret: String,
    pub storage_secret: String,
}

/// How long a session token lasts: a day.
pub const AUTH_TOKEN_SECONDS: usize = 86400;

impl Utils {
    /// The claims of a session token for `user` issued at `now`; nothing where
    /// the expiry does not fit the clock's range.
    pub fn auth_claims(&self, user: &User, now: usize) -> (r: Option<AuthTokenClaims>)
        ensures
            now + AUTH_TOKEN_SECONDS <= usize::MAX ==> (r matches Some(c) && c.user.id == user.id
                && c.user.email@ == user.email@ && c.iat == now && c.exp == now + AUTH_TOKEN_SECONDS),
            now + AUTH_TOKEN_SECONDS > usize::MAX ==> r is None,
    {
        if now > usize::MAX - AUTH_TOKEN_SECONDS {
            return None;
        }
        Some(
            AuthTokenClaims {
                user: TokenUser { id: user.id, email: user.email.clone() },
                iat: now,
                exp: now + AUTH_TOKEN_SECONDS,
            },
        )
    }

    /// The claims of a storage token for a file, issued at `now` and valid
    /// for `exp_time` seconds; nothing where the expiry falls outside the
    /// clock's range.
    pub fn storage_claims(&self, file: TokenFile, now: usize, exp_time: i64) -> (r: Option<
        StorageTokenClaims,
    >)
        ensures
            0 <= now + exp_time <= usize::MAX ==> (r matches Some(c) && c.file == file && c.iat == now
                && c.exp == now + exp_time),
            !(0 <= now + exp_time <= usize::MAX) ==> r is None,
    {
        let exp: i128 = now as i128 + exp_time as i128;
        if exp < 0 || exp > usize::MAX as i128 {
            return None;
        }
        Some(StorageTokenClaims { file, iat: now, exp: exp as usize })
    }
}

/// The lowercase hex SHA-256 digest of a password's UTF-8 bytes.
pub uninterp spec fn sha256_hex(s: Seq<char>) -> Seq<char>;

pub open spec fn is_lower_hex(c: char) -> bool {
    ('0' <= c && c <= '9') || ('a' <= c && c <= 'f')
}

/// Relies on sha2's `Sha256` and on generic-array's `LowerHex`, which writes
/// each of the digest's 32 bytes as two lowercase hex digits.
#[verifier::external_body]
pub fn hash_password(password: String) -> (r: String)
    ensures
        r@ == sha256_hex(password@),
        r@.len() == 64,
        forall|k: int| 0 <= k < 64 ==> is_lower_hex(#[trigger] r@[k]),
{
    let mut hasher = sha2::Sha256::new();
    hasher.update(password);
    format!("{:x}", hasher.finalize())
}

/// Whether a password matches a stored hash.
pub fn password_matches(password: String, stored_hash: &String) -> (r: bool)
    ensures
        r == (sha256_hex(password@) == stored_hash@),
{
    let h = hash_password(password);
    h == *stored_hash
}

} // verus!
