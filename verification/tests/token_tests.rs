use authcore::error::{Failure, TokenError};
use authcore::token::{check_expiry, signing_outcome, Claims, TokenConfig};

fn config() -> TokenConfig {
    TokenConfig::new(b"a signing secret".to_vec(), 8 * 3600)
}

#[test]
fn issued_token_validates_before_expiry() {
    let cfg = config();
    let token = cfg.issue("a@x.com", 1_000, 60).expect("token is issued");
    let claims = cfg.validate(&token, 1_059).expect("token is valid");
    assert_eq!(claims.subject, "a@x.com");
    assert_eq!(claims.expires_at, 1_060);
}

#[test]
fn token_has_three_parts() {
    let cfg = config();
    let token = cfg.issue("a@x.com", 1_000, 60).expect("token is issued");
    assert_eq!(token.split('.').count(), 3);
    assert_eq!(token.split('.').next(), Some("eyJ0eXAiOiJKV1QiLCJhbGciOiJIUzI1NiJ9"));
    assert_ne!(token, "a@x.com");
}

#[test]
fn token_expires_at_its_expiry() {
    let cfg = config();
    let token = cfg.issue("a@x.com", 1_000, 60).expect("token is issued");
    assert!(matches!(cfg.validate(&token, 1_060), Err(TokenError::Expired)));
    assert!(matches!(cfg.validate(&token, 2_000), Err(TokenError::Expired)));
}

#[test]
fn zero_ttl_token_is_expired_at_once() {
    let cfg = config();
    let token = cfg.issue("a@x.com", 1_000, 0).expect("token is issued");
    assert!(matches!(cfg.validate(&token, 1_000), Err(TokenError::Expired)));
    assert!(matches!(cfg.verify_jwt(&token, 1_000), Err(Failure::Unauthorized)));
}

#[test]
fn empty_secret_cannot_sign() {
    let cfg = TokenConfig::new(Vec::new(), 60);
    assert_eq!(cfg.issue("a@x.com", 1_000, 60), Err(TokenError::SigningFailure));
    assert_eq!(cfg.create_jwt("a@x.com", 1_000), Err(TokenError::SigningFailure));
}

#[test]
fn token_under_another_secret_has_invalid_signature() {
    let cfg = config();
    let other = TokenConfig::new(b"another secret".to_vec(), 8 * 3600);
    let token = other.issue("a@x.com", 1_000, 60).expect("token is issued");
    assert!(matches!(cfg.validate(&token, 1_001), Err(TokenError::InvalidSignature)));
    assert!(matches!(cfg.verify_jwt(&token, 1_001), Err(Failure::Unauthorized)));
}

#[test]
fn tampered_token_is_rejected() {
    let cfg = config();
    let token = cfg.issue("a@x.com", 1_000, 60).expect("token is issued");
    let forged = cfg.issue("b@x.com", 1_000, 60).expect("token is issued");
    let parts: Vec<&str> = token.split('.').collect();
    let forged_parts: Vec<&str> = forged.split('.').collect();
    let spliced = format!("{}.{}.{}", parts[0], forged_parts[1], parts[2]);
    assert!(matches!(cfg.validate(&spliced, 1_001), Err(TokenError::InvalidSignature)));
}

#[test]
fn unparsable_token_is_malformed() {
    let cfg = config();
    assert!(matches!(cfg.validate("", 1), Err(TokenError::Malformed)));
    assert!(matches!(cfg.validate("abc", 1), Err(TokenError::Malformed)));
    assert!(matches!(cfg.validate("a.b", 1), Err(TokenError::Malformed)));
    assert!(matches!(cfg.validate("a.b.c.d", 1), Err(TokenError::Malformed)));
    assert!(matches!(cfg.verify_jwt("a.b.c", 1), Err(Failure::Unauthorized)));
}

#[test]
fn every_token_failure_is_unauthorized_at_the_boundary() {
    let cfg = config();
    let other = TokenConfig::new(b"another secret".to_vec(), 60);
    let expired = cfg.issue("a@x.com", 1_000, 0).expect("token is issued");
    let foreign = other.issue("a@x.com", 1_000, 60).expect("token is issued");
    let first = cfg.verify_jwt(&expired, 1_000).err();
    let second = cfg.verify_jwt(&foreign, 1_000).err();
    let third = cfg.verify_jwt("garbage", 1_000).err();
    assert_eq!(first, Some(Failure::Unauthorized));
    assert_eq!(first, second);
    assert_eq!(second, third);
}

#[test]
fn verify_jwt_returns_the_claims() {
    let cfg = config();
    let token = cfg.create_jwt("a@x.com", 1_000).expect("token is issued");
    let claims = cfg.verify_jwt(&token, 1_000).expect("token is accepted");
    assert_eq!(claims.subject, "a@x.com");
    assert_eq!(claims.expires_at, 1_000 + 8 * 3600);
    assert!(cfg.verify_jwt(&token, 1_000 + 8 * 3600 - 1).is_ok());
    assert!(cfg.verify_jwt(&token, 1_000 + 8 * 3600).is_err());
}

#[test]
fn issue_is_a_function_of_its_inputs() {
    let cfg = config();
    let first = cfg.issue("a@x.com", 1_000, 60).expect("token is issued");
    let second = cfg.issue("a@x.com", 1_000, 60).expect("token is issued");
    let later = cfg.issue("a@x.com", 1_001, 60).expect("token is issued");
    assert_eq!(first, second);
    assert_ne!(first, later);
}

#[test]
fn subject_with_unusual_characters_round_trips() {
    let cfg = config();
    let subject = "we\"ird\\ \u{00e9}\u{4e2d} \n@x.com";
    let token = cfg.issue(subject, 5, u64::MAX - 5).expect("token is issued");
    let claims = cfg.validate(&token, u64::MAX - 1).expect("token is valid");
    assert_eq!(claims.subject, subject);
    assert_eq!(claims.expires_at, u64::MAX);
}

#[test]
fn check_expiry_compares_strictly() {
    let claims = Claims { subject: "a@x.com".to_owned(), expires_at: 10 };
    assert!(check_expiry(Ok(claims.clone()), 9).is_ok());
    assert!(matches!(check_expiry(Ok(claims.clone()), 10), Err(TokenError::Expired)));
    assert!(matches!(check_expiry(Ok(claims), 11), Err(TokenError::Expired)));
    assert!(matches!(
        check_expiry(Err(TokenError::InvalidSignature), 0),
        Err(TokenError::InvalidSignature)
    ));
    assert!(matches!(check_expiry(Err(TokenError::Malformed), 0), Err(TokenError::Malformed)));
}

#[test]
fn signing_outcome_maps_the_codec_error() {
    assert_eq!(signing_outcome(Ok("t".to_owned())), Ok("t".to_owned()));
    let fault: jsonwebtoken::errors::Error = jsonwebtoken::errors::ErrorKind::InvalidKeyFormat.into();
    assert_eq!(signing_outcome(Err(fault)), Err(TokenError::SigningFailure));
}
