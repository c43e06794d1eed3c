use vstd::prelude::*;

use argon2::password_hash::rand_core::OsRng;
use argon2::password_hash::SaltString;
use argon2::{Argon2, PasswordHash, PasswordHasher, PasswordVerifier};

verus! {

/// Whether `PasswordHash::new` parses `encoded` as a PHC string.
pub uninterp spec fn phc_string_parses(encoded: Seq<char>) -> bool;

/// Whether `Argon2::default().verify_password` succeeds for `password`
/// against the password hash parsed from `encoded`.
pub uninterp spec fn argon2_verifies(password: Seq<u8>, encoded: Seq<char>) -> bool;

/// Whether a stored hash accepts a password: it parses and argon2 verifies
/// the password against it.
pub open spec fn argon2_accepts(password: Seq<u8>, encoded: Seq<char>) -> bool {
    phc_string_parses(encoded) && argon2_verifies(password, encoded)
}

/// The longest password argon2 hashes, in bytes (`argon2::MAX_PWD_LEN`).
pub open spec fn max_password_bytes() -> int {
    0xFFFF_FFFF
}

/// The form of the PHC string that `Argon2::default()` writes: algorithm
/// argon2id, version 19, parameters m=19456,t=2,p=1, then a 22-character
/// salt (16 bytes in unpadded B64), `$`, and a 43-character hash (32 bytes
/// in unpadded B64).
pub open spec fn default_phc_form(h: Seq<char>) -> bool {
    &&& h.len() == 97
    &&& h.take(31) == "$argon2id$v=19$m=19456,t=2,p=1$"@
    &&& h[53] == '$'
}

/// The UTF-8 bytes of a text.
pub open spec fn utf8_bytes(s: Seq<char>) -> Seq<u8> {
    vstd::utf8::encode_utf8(s)
}

/// Hashes `password` with `Argon2::default().hash_password` under a fresh
/// salt from `SaltString::generate(&mut OsRng)` and renders the PHC string.
/// Claimed: hashing succeeds exactly when the password is at most
/// `argon2::MAX_PWD_LEN` (0xFFFFFFFF) bytes long, the one check of
/// `Argon2::verify_inputs` that depends on the input (the other checks
/// concern the default parameters, the 32-byte output and the 16-byte
/// generated salt, which all pass); and a string that comes back parses as a
/// PHC string and argon2 verifies the same password against it. The salt is
/// random, so nothing more is claimed of the string than its form: the
/// `Display` of the `PasswordHash` with the default algorithm (argon2id),
/// version (19) and parameters (m=19456,t=2,p=1), the generated 16-byte
/// salt and the 32-byte output, each in unpadded B64 (`default_phc_form`).
#[verifier::external_body]
fn argon2_hash_password(password: &[u8]) -> (r: Option<String>)
    ensures
        r is Some <==> password@.len() <= max_password_bytes(),
        r matches Some(h) ==> phc_string_parses(h@) && argon2_verifies(password@, h@),
        r matches Some(h) ==> default_phc_form(h@),
{
    match Argon2::default().hash_password(password, &SaltString::generate(&mut OsRng)) {
        Ok(hash) => Some(hash.to_string()),
        Err(_) => None,
    }
}

/// Calls `PasswordHash::new`. Claimed: the answer is whether it parses
/// (named `phc_string_parses`).
#[verifier::external_body]
fn phc_parses(encoded: &str) -> (r: bool)
    ensures
        r == phc_string_parses(encoded@),
{
    PasswordHash::new(encoded).is_ok()
}

/// Calls `Argon2::default().verify_password` on the password hash parsed from
/// `encoded`, which parses by the precondition. Claimed: the answer is the
/// named relation `argon2_verifies`, a function of the two arguments alone.
#[verifier::external_body]
fn argon2_verify(password: &[u8], encoded: &str) -> (r: bool)
    requires
        phc_string_parses(encoded@),
    ensures
        r == argon2_verifies(password@, encoded@),
{
    match PasswordHash::new(encoded) {
        Ok(hash) => Argon2::default().verify_password(password, &hash).is_ok(),
        Err(_) => false,
    }
}

/// Why a password could not be hashed.
#[derive(Debug, PartialEq, Eq, Clone, Copy)]
pub enum PasswordHashError {
    HashingFailed,
}

/// Hashes a password for storage. Any password of at most 0xFFFFFFFF UTF-8
/// bytes is hashed; what comes back is an argon2id PHC string with the
/// default parameters and verifies against the same password.
pub fn hash_password(password: String) -> (r: Result<String, PasswordHashError>)
    ensures
        r is Ok <==> utf8_bytes(password@).len() <= max_password_bytes(),
        r matches Ok(h) ==> argon2_accepts(utf8_bytes(password@), h@),
        r matches Ok(h) ==> default_phc_form(h@),
        r matches Err(e) ==> e == PasswordHashError::HashingFailed,
{
    match argon2_hash_password(password.as_str().as_bytes()) {
        Some(h) => Ok(h),
        None => Err(PasswordHashError::HashingFailed),
    }
}

/// Checks a password against a stored hash; a hash that does not parse
/// accepts nothing.
pub fn verify_password(password: String, hash: String) -> (r: bool)
    ensures
        r == argon2_accepts(utf8_bytes(password@), hash@),
{
    if !phc_parses(hash.as_str()) {
        return false;
    }
    argon2_verify(password.as_str().as_bytes(), hash.as_str())
}

} // verus!
