//! Salted, memory-hard password hashing and verification with Argon2id.

use vstd::prelude::*;
use argon2::password_hash::rand_core::{OsRng, RngCore};
use argon2::password_hash::{PasswordHash, PasswordHasher, PasswordVerifier, SaltString};
use argon2::Argon2;
use crate::error::HashError;

verus! {

/// Number of random bytes in a fresh salt.
pub const SALT_LEN: usize = 16;

/// The shortest salt, in bytes, that Argon2 hashes under.
pub const MIN_SALT_LEN: usize = 8;

/// The encoded hash string that Argon2id with its default cost parameters
/// produces for a password and a salt, or `None` where it produces none.
pub uninterp spec fn argon2_encoded(password: Seq<u8>, salt: Seq<u8>) -> Option<Seq<char>>;

/// Whether Argon2 accepts a password against an encoded hash string. False
/// for a string that does not parse and for an algorithm it does not know.
pub uninterp spec fn argon2_accepts(password: Seq<u8>, encoded: Seq<char>) -> bool;

/// Whether `encoded` is a hash of `password` under some salt of the standard length.
pub open spec fn is_hash_of(password: Seq<u8>, encoded: Seq<char>) -> bool {
    exists|salt: Seq<u8>| #[trigger]
        argon2_encoded(password, salt) == Some(encoded) && salt.len() == SALT_LEN
}

/// What `hash_with_salt` returns: nothing under a salt that is too short, else
/// what Argon2 makes of the password and the salt.
pub open spec fn hashed(password: Seq<u8>, salt: Seq<u8>) -> Result<Seq<char>, HashError> {
    if salt.len() < MIN_SALT_LEN {
        Err(HashError::HashingFailure)
    } else {
        match argon2_encoded(password, salt) {
            Some(encoded) => Ok(encoded),
            None => Err(HashError::HashingFailure),
        }
    }
}

/// The view of a hashing result.
pub open spec fn hash_result_view(r: Result<String, HashError>) -> Result<Seq<char>, HashError> {
    match r {
        Ok(encoded) => Ok(encoded@),
        Err(e) => Err(e),
    }
}

/// Draws `len` bytes from the operating system's entropy source with
/// `OsRng.try_fill_bytes`. Trusted: on success the vector has that length.
/// Nothing is claimed of the bytes, and two calls may differ.
#[verifier::external_body]
pub(crate) fn fresh_bytes(len: usize) -> (r: Option<Vec<u8>>)
    ensures
        r matches Some(bytes) ==> bytes@.len() == len,
{
    let mut bytes = vec![0u8; len];
    match OsRng.try_fill_bytes(&mut bytes) {
        Ok(()) => Some(bytes),
        Err(_) => None,
    }
}

/// Encodes the salt with `SaltString::encode_b64` and hashes the password with
/// `Argon2::default().hash_password`. Trusted: the outcome is a function of the
/// two arguments, and Argon2 accepts the password against the string it made.
/// A salt string of under four characters makes the call panic, so short salts
/// are left out.
#[verifier::external_body]
fn argon2_hash(password: &[u8], salt: &[u8]) -> (r: Option<String>)
    requires
        salt@.len() >= MIN_SALT_LEN,
    ensures
        r matches Some(encoded) ==> argon2_encoded(password@, salt@) == Some(encoded@)
            && argon2_accepts(password@, encoded@),
        r is None ==> argon2_encoded(password@, salt@) is None,
{
    let salt = SaltString::encode_b64(salt).ok()?;
    Argon2::default().hash_password(password, &salt).ok().map(|h| h.to_string())
}

/// Parses the encoded hash with `PasswordHash::new` and checks the password
/// with `Argon2::default().verify_password`. Trusted: the answer is a function
/// of the two arguments; a parse error and a mismatch both give `false`. The
/// check allocates the memory that the encoded parameters ask for: 19 MiB for
/// a hash that `hash` made.
#[verifier::external_body]
fn argon2_check(password: &[u8], encoded: &str) -> (ok: bool)
    ensures
        ok == argon2_accepts(password@, encoded@),
{
    match PasswordHash::new(encoded) {
        Ok(parsed) => Argon2::default().verify_password(password, &parsed).is_ok(),
        Err(_) => false,
    }
}

/// Hashes `plaintext` under the given salt. The password is an opaque byte
/// sequence: no length or encoding is refused here.
pub fn hash_with_salt(plaintext: &[u8], salt: &[u8]) -> (r: Result<String, HashError>)
    ensures
        hash_result_view(r) == hashed(plaintext@, salt@),
        r matches Ok(encoded) ==> argon2_accepts(plaintext@, encoded@),
{
    if salt.len() < MIN_SALT_LEN {
        return Err(HashError::HashingFailure);
    }
    match argon2_hash(plaintext, salt) {
        Some(encoded) => Ok(encoded),
        None => Err(HashError::HashingFailure),
    }
}

/// Hashes `plaintext` under a salt drawn afresh for this call. Whatever salt
/// was drawn, a hash that comes back is one of `plaintext` and verifies it.
pub fn hash(plaintext: &[u8]) -> (r: Result<String, HashError>)
    ensures
        r matches Ok(encoded) ==> is_hash_of(plaintext@, encoded@) && argon2_accepts(
            plaintext@,
            encoded@,
        ),
{
    match fresh_bytes(SALT_LEN) {
        Some(salt) => {
            let r = hash_with_salt(plaintext, salt.as_slice());
            r
        },
        None => Err(HashError::HashingFailure),
    }
}

/// Whether `plaintext` is the password behind `encoded_hash`. A wrong password,
/// a corrupt hash and an unknown algorithm all give the same `false`.
pub fn verify(plaintext: &[u8], encoded_hash: &str) -> (ok: bool)
    ensures
        ok == argon2_accepts(plaintext@, encoded_hash@),
{
    argon2_check(plaintext, encoded_hash)
}

} // verus!
