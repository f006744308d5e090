use auth_core::error::AuthServiceError;
use auth_core::jwt::{TokenService, TOKEN_VALIDITY_SECS};

#[test]
fn test_issue_verify_round_trip() {
    let svc = TokenService::new(Some("test-secret".to_string()));
    let iat: u64 = 1_000_000;

    let token = svc.issue_at("user-1", "alice", iat).unwrap();
    let claims = svc.verify_at(token.as_str(), iat).unwrap();

    assert_eq!(claims.sub, "user-1");
    assert_eq!(claims.username, "alice");
    assert_eq!(claims.iat, iat);
    assert_eq!(claims.exp, iat + TOKEN_VALIDITY_SECS);
}

#[test]
fn test_validity_window_is_24_hours() {
    let svc = TokenService::new(Some("test-secret".to_string()));
    let iat: u64 = 50_000;

    let token = svc.issue_at("user-1", "alice", iat).unwrap();
    let claims = svc.verify_at(token.as_str(), iat).unwrap();

    assert_eq!(claims.exp - claims.iat, 24 * 3600);
    // accepted up to the last second of the window
    assert!(svc.verify_at(token.as_str(), iat + TOKEN_VALIDITY_SECS - 1).is_ok());
    // rejected from the expiry instant on
    assert!(svc.verify_at(token.as_str(), iat + TOKEN_VALIDITY_SECS).is_err());
}

#[test]
fn test_expired_fails_like_corrupted() {
    let svc = TokenService::new(Some("test-secret".to_string()));
    let iat: u64 = 1_000_000;
    let token = svc.issue_at("user-1", "alice", iat).unwrap();

    let expired_error = svc.verify_at(token.as_str(), iat + TOKEN_VALIDITY_SECS).unwrap_err();

    let mut corrupted = token.clone();
    corrupted.push('x');
    let corrupted_error = svc.verify_at(corrupted.as_str(), iat).unwrap_err();

    assert_eq!(expired_error, corrupted_error);
    assert!(matches!(expired_error, AuthServiceError::Unauthorized));
}

#[test]
fn test_verify_rejects_garbage() {
    let svc = TokenService::new(Some("test-secret".to_string()));

    assert!(matches!(
        svc.verify_at("not-a-token", 0).unwrap_err(),
        AuthServiceError::Unauthorized
    ));
    assert!(matches!(svc.verify_at("", 0).unwrap_err(), AuthServiceError::Unauthorized));
}

#[test]
fn test_verify_rejects_wrong_secret() {
    let issuer = TokenService::new(Some("secret-one".to_string()));
    let other = TokenService::new(Some("secret-two".to_string()));
    let iat: u64 = 1_000_000;

    let token = issuer.issue_at("user-1", "alice", iat).unwrap();

    assert!(other.verify_at(token.as_str(), iat).is_err());
    assert!(issuer.verify_at(token.as_str(), iat).is_ok());
}

#[test]
fn test_default_secret_fallback() {
    let fallback = TokenService::new(None);
    let explicit = TokenService::new(Some("secret".to_string()));
    let iat: u64 = 1_000_000;

    let token = fallback.issue_at("user-1", "alice", iat).unwrap();

    // the fallback service signs with the fixed development secret
    assert!(explicit.verify_at(token.as_str(), iat).is_ok());
}

#[test]
fn test_generate_and_verify_against_clock() {
    let svc = TokenService::new(Some("test-secret".to_string()));

    let token = svc.generate_token("user-9", "bob").unwrap();
    assert!(!token.is_empty());

    let claims = svc.verify_token(token.as_str()).unwrap();
    assert_eq!(claims.sub, "user-9");
    assert_eq!(claims.username, "bob");
    assert_eq!(claims.exp, claims.iat + TOKEN_VALIDITY_SECS);
}

#[test]
fn test_token_is_not_the_input() {
    let svc = TokenService::new(Some("test-secret".to_string()));

    let token = svc.issue_at("user-1", "alice", 1_000_000).unwrap();

    assert_ne!(token, "user-1");
    assert_ne!(token, "alice");
    // three dot-separated parts: a serialized signed token, not plain text
    assert_eq!(token.split('.').count(), 3);
}
