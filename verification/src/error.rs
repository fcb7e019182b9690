//! The failure classes of the credential core.

use vstd::prelude::*;

verus! {

/// The password hasher could not produce a hash.
#[derive(Clone, Copy, Debug, PartialEq, Eq, Structural)]
pub enum HashError {
    /// The entropy source or the hash function itself failed.
    HashingFailure,
}

/// Why a token was not issued or not accepted.
#[derive(Clone, Copy, Debug, PartialEq, Eq, Structural)]
pub enum TokenError {
    /// The signing secret is empty, or signing itself failed.
    SigningFailure,
    /// The signature does not match the token under the configured secret.
    InvalidSignature,
    /// The token's expiry is not after the instant of validation.
    Expired,
    /// The token cannot be parsed into a header, claims and a signature.
    Malformed,
}

/// Why the credential store refused an operation.
#[derive(Clone, Copy, Debug, PartialEq, Eq, Structural)]
pub enum StoreError {
    /// A record with this email exists already.
    DuplicateEmail,
    /// No record has this email.
    NotFound,
    /// The store itself failed.
    StoreFailure,
}

/// The four classes every failure is reduced to before it reaches a caller.
#[derive(Clone, Copy, Debug, PartialEq, Eq, Structural)]
pub enum Failure {
    /// A required field is missing or empty.
    BadRequest,
    /// The email is registered already.
    Conflict,
    /// The credentials or the token were not accepted, for whatever reason.
    Unauthorized,
    /// Hashing, signing or the store failed.
    Internal,
}

} // verus!
