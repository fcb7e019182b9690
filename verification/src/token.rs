//! Signed, expiring access tokens: HS256 tokens that carry a subject and an expiry.

use vstd::prelude::*;
use jsonwebtoken::errors::ErrorKind;
use jsonwebtoken::{Algorithm, DecodingKey, EncodingKey, Header, Validation};
use crate::error::{Failure, TokenError};

verus! {

/// The error type of the token codec, carried through unread.
#[verifier::external_type_specification]
#[verifier::external_body]
pub struct ExCodecError(jsonwebtoken::errors::Error);

/// What a token asserts: who was authenticated, and until when.
#[derive(Clone, Debug)]
pub struct Claims {
    /// The authenticated user's email.
    pub subject: String,
    /// The instant, in seconds since the epoch, from which the token is no longer valid.
    pub expires_at: u64,
}

impl View for Claims {
    type V = (Seq<char>, u64);

    open spec fn view(&self) -> (Seq<char>, u64) {
        (self.subject@, self.expires_at)
    }
}

/// The signing secret and the standard time to live, fixed when the process starts.
pub struct TokenConfig {
    /// The symmetric secret that signs and checks every token.
    pub secret: Vec<u8>,
    /// The time to live, in seconds, of a token issued at login.
    pub ttl: u64,
}

/// The compact HS256 token over the claims `sub` and `exp` under a secret, or
/// `None` where the codec produces none.
pub uninterp spec fn hs256_signed(subject: Seq<char>, expires_at: u64, secret: Seq<u8>) -> Option<
    Seq<char>,
>;

/// What the codec reads out of a token under a secret, the expiry not yet
/// compared with any clock: the claims, or why there are none.
pub uninterp spec fn hs256_opened(token: Seq<char>, secret: Seq<u8>) -> Result<
    (Seq<char>, u64),
    TokenError,
>;

/// The view of a result that carries claims.
pub open spec fn claims_view(r: Result<Claims, TokenError>) -> Result<(Seq<char>, u64), TokenError> {
    match r {
        Ok(claims) => Ok(claims@),
        Err(e) => Err(e),
    }
}

/// The view of a result that carries a token.
pub open spec fn token_view(r: Result<String, TokenError>) -> Result<Seq<char>, TokenError> {
    match r {
        Ok(token) => Ok(token@),
        Err(e) => Err(e),
    }
}

/// What issuing returns: no token under an empty secret, else the signed claims
/// with the expiry `now + ttl`.
pub open spec fn issued(subject: Seq<char>, now: u64, ttl: u64, secret: Seq<u8>) -> Result<
    Seq<char>,
    TokenError,
> {
    if secret.len() == 0 {
        Err(TokenError::SigningFailure)
    } else {
        match hs256_signed(subject, (now + ttl) as u64, secret) {
            Some(token) => Ok(token),
            None => Err(TokenError::SigningFailure),
        }
    }
}

/// What becomes of opened claims at the instant `now`: they stand while `now`
/// is before the expiry, and are expired from then on.
pub open spec fn unexpired(opened: Result<(Seq<char>, u64), TokenError>, now: u64) -> Result<
    (Seq<char>, u64),
    TokenError,
> {
    match opened {
        Ok((subject, expires_at)) => if now < expires_at {
            Ok((subject, expires_at))
        } else {
            Err(TokenError::Expired)
        },
        Err(e) => Err(e),
    }
}

/// What validating returns: the signature and the shape are checked first, the expiry after.
pub open spec fn validated(token: Seq<char>, now: u64, secret: Seq<u8>) -> Result<
    (Seq<char>, u64),
    TokenError,
> {
    unexpired(hs256_opened(token, secret), now)
}

/// The single outcome that every token failure has at the boundary.
pub open spec fn admitted(validated: Result<(Seq<char>, u64), TokenError>) -> Result<
    (Seq<char>, u64),
    Failure,
> {
    match validated {
        Ok(claims) => Ok(claims),
        Err(_) => Err(Failure::Unauthorized),
    }
}

/// The token in a codec's answer to a signing request, if there is one.
pub open spec fn signing_view(r: Result<String, jsonwebtoken::errors::Error>) -> Option<Seq<char>> {
    match r {
        Ok(token) => Some(token@),
        Err(_) => None,
    }
}

/// Whether a token opens under a secret to the given claims.
pub open spec fn opens_to(token: Seq<char>, secret: Seq<u8>, subject: Seq<char>, expires_at: u64) -> bool {
    hs256_opened(token, secret) == Ok::<(Seq<char>, u64), TokenError>((subject, expires_at))
}

/// Whether `token` is what issuing gives for these inputs: the signed claims,
/// which open under the same secret to the subject and the expiry `now + ttl`.
pub open spec fn issue_of(token: Seq<char>, subject: Seq<char>, now: u64, ttl: u64, secret: Seq<u8>) -> bool {
    issued(subject, now, ttl, secret) == Ok::<Seq<char>, TokenError>(token) && opens_to(
        token,
        secret,
        subject,
        (now + ttl) as u64,
    )
}

/// Builds the claims object and signs it with `jsonwebtoken::encode`, under
/// the default header and `EncodingKey::from_secret`. Trusted: the outcome is a
/// function of the three arguments, and a token that was made opens under the
/// same secret to the claims that went in.
#[verifier::external_body]
fn hs256_sign(subject: &str, expires_at: u64, secret: &[u8]) -> (r: Result<String, jsonwebtoken::errors::Error>)
    ensures
        signing_view(r) == hs256_signed(subject@, expires_at, secret@),
        r matches Ok(token) ==> opens_to(token@, secret@, subject@, expires_at),
{
    let mut claims = serde_json::Map::new();
    claims.insert("sub".to_owned(), serde_json::Value::from(subject));
    claims.insert("exp".to_owned(), serde_json::Value::from(expires_at));
    jsonwebtoken::encode(&Header::default(), &claims, &EncodingKey::from_secret(secret))
}

/// Opens a token with `jsonwebtoken::decode` under `DecodingKey::from_secret`
/// and the HS256 rules with the clock comparison switched off. Trusted: the
/// outcome is a function of the two arguments; a failed signature check is
/// reported as such, and every other refusal as a malformed token.
#[verifier::external_body]
fn hs256_open(token: &str, secret: &[u8]) -> (r: Result<Claims, TokenError>)
    ensures
        claims_view(r) == hs256_opened(token@, secret@),
        r matches Err(e) ==> e == TokenError::InvalidSignature || e == TokenError::Malformed,
{
    let mut rules = Validation::new(Algorithm::HS256);
    rules.validate_exp = false;
    match jsonwebtoken::decode::<serde_json::Value>(token, &DecodingKey::from_secret(secret), &rules) {
        Ok(data) => match (data.claims["sub"].as_str(), data.claims["exp"].as_u64()) {
            (Some(sub), Some(exp)) => Ok(Claims { subject: sub.to_owned(), expires_at: exp }),
            _ => Err(TokenError::Malformed),
        },
        Err(e) => match e.kind() {
            ErrorKind::InvalidSignature => Err(TokenError::InvalidSignature),
            _ => Err(TokenError::Malformed),
        },
    }
}

/// Turns the codec's answer to a signing request into the issuer's.
pub fn signing_outcome(signed: Result<String, jsonwebtoken::errors::Error>) -> (r: Result<
    String,
    TokenError,
>)
    ensures
        match signed {
            Ok(token) => r == Ok::<String, TokenError>(token),
            Err(_) => r == Err::<String, TokenError>(TokenError::SigningFailure),
        },
{
    match signed {
        Ok(token) => Ok(token),
        Err(_) => Err(TokenError::SigningFailure),
    }
}

/// Compares opened claims with the instant `now`: a token is valid strictly
/// before its expiry.
pub fn check_expiry(opened: Result<Claims, TokenError>, now: u64) -> (r: Result<Claims, TokenError>)
    ensures
        claims_view(r) == unexpired(claims_view(opened), now),
        opened matches Ok(claims) && now < claims.expires_at ==> r == opened,
{
    match opened {
        Ok(claims) => {
            if now < claims.expires_at {
                Ok(claims)
            } else {
                Err(TokenError::Expired)
            }
        },
        Err(e) => Err(e),
    }
}

impl TokenConfig {
    /// A configuration with the given secret and standard time to live.
    pub fn new(secret: Vec<u8>, ttl: u64) -> (cfg: TokenConfig)
        ensures
            cfg.secret == secret,
            cfg.ttl == ttl,
    {
        TokenConfig { secret, ttl }
    }

    /// Issues a token for `subject` that expires at `now + ttl`. A token that
    /// was issued validates under this configuration at every instant before
    /// its expiry, and is expired from the expiry on: with `ttl == 0` it is
    /// expired at `now` already.
    pub fn issue(&self, subject: &str, now: u64, ttl: u64) -> (r: Result<String, TokenError>)
        requires
            now + ttl <= u64::MAX,
        ensures
            token_view(r) == issued(subject@, now, ttl, self.secret@),
            r matches Ok(token) ==> issue_of(token@, subject@, now, ttl, self.secret@),
            r matches Ok(token) ==> forall|at: u64| #[trigger]
                validated(token@, at, self.secret@) == (if at < now + ttl {
                    Ok::<(Seq<char>, u64), TokenError>((subject@, (now + ttl) as u64))
                } else {
                    Err::<(Seq<char>, u64), TokenError>(TokenError::Expired)
                }),
    {
        if self.secret.len() == 0 {
            return Err(TokenError::SigningFailure);
        }
        let expires_at: u64 = now + ttl;
        signing_outcome(hs256_sign(subject, expires_at, self.secret.as_slice()))
    }

    /// Checks a token's signature and shape, then its expiry against `now`.
    pub fn validate(&self, token: &str, now: u64) -> (r: Result<Claims, TokenError>)
        ensures
            claims_view(r) == validated(token@, now, self.secret@),
            r matches Err(e) ==> e != TokenError::SigningFailure,
    {
        check_expiry(hs256_open(token, self.secret.as_slice()), now)
    }

    /// Issues the login token for `user_email`, with the standard time to live.
    pub fn create_jwt(&self, user_email: &str, now: u64) -> (r: Result<String, TokenError>)
        requires
            now + self.ttl <= u64::MAX,
        ensures
            token_view(r) == issued(user_email@, now, self.ttl, self.secret@),
            r matches Ok(token) ==> issue_of(token@, user_email@, now, self.ttl, self.secret@),
            r matches Ok(token) ==> forall|at: u64| #[trigger]
                validated(token@, at, self.secret@) == (if at < now + self.ttl {
                    Ok::<(Seq<char>, u64), TokenError>((user_email@, (now + self.ttl) as u64))
                } else {
                    Err::<(Seq<char>, u64), TokenError>(TokenError::Expired)
                }),
    {
        self.issue(user_email, now, self.ttl)
    }

    /// Validates a token for a protected request. Whatever was wrong with a
    /// token, the caller learns only that it was not accepted.
    pub fn verify_jwt(&self, token: &str, now: u64) -> (r: Result<Claims, Failure>)
        ensures
            match r {
                Ok(claims) => admitted(validated(token@, now, self.secret@)) == Ok::<
                    (Seq<char>, u64),
                    Failure,
                >(claims@),
                Err(e) => admitted(validated(token@, now, self.secret@)) == Err::<
                    (Seq<char>, u64),
                    Failure,
                >(e),
            },
            r matches Err(e) ==> e == Failure::Unauthorized,
    {
        match self.validate(token, now) {
            Ok(claims) => Ok(claims),
            Err(_) => Err(Failure::Unauthorized),
        }
    }
}

/// A token issued with a time to live of zero is expired at the instant of issue.
pub proof fn lemma_zero_ttl_is_expired(subject: Seq<char>, now: u64, secret: Seq<u8>, token: Seq<char>)
    requires
        issue_of(token, subject, now, 0, secret),
    ensures
        validated(token, now, secret) == Err::<(Seq<char>, u64), TokenError>(TokenError::Expired),
{
}

/// Every failure of validation has the same outcome at the boundary: which of
/// them occurred cannot be told from it.
pub proof fn lemma_token_failures_collapse(first: TokenError, second: TokenError)
    ensures
        admitted(Err(first)) == admitted(Err(second)),
        admitted(Err(first)) == Err::<(Seq<char>, u64), Failure>(Failure::Unauthorized),
{
}

} // verus!
