use auth_core::error::AuthServiceError;
use auth_core::jwt::TokenService;
use auth_core::repository::MockUserRepository;
use auth_core::service::{login, sign_up};

#[test]
fn test_authenticate_missing_header() {
    let svc = TokenService::new(None);

    let result = svc.authenticate(None);

    assert!(matches!(result.unwrap_err(), AuthServiceError::Unauthorized));
}

#[test]
fn test_authenticate_wrong_scheme() {
    let svc = TokenService::new(None);
    let header = "Basic xyz".to_string();

    let result = svc.authenticate(Some(&header));

    assert!(matches!(result.unwrap_err(), AuthServiceError::Unauthorized));
}

#[test]
fn test_authenticate_bad_token() {
    let svc = TokenService::new(None);
    let header = "Bearer garbage".to_string();

    let result = svc.authenticate(Some(&header));

    assert!(matches!(result.unwrap_err(), AuthServiceError::Unauthorized));
}

#[test]
fn test_authenticate_short_header() {
    let svc = TokenService::new(None);
    let header = "Beare".to_string();

    let result = svc.authenticate(Some(&header));

    assert!(matches!(result.unwrap_err(), AuthServiceError::Unauthorized));
}

#[test]
fn test_authenticate_fresh_token() {
    let svc = TokenService::new(Some("test-secret".to_string()));
    let token = svc.generate_token("user-1", "alice").unwrap();
    let header = format!("Bearer {}", token);

    let claims = svc.authenticate(Some(&header)).unwrap();

    assert_eq!(claims.sub, "user-1");
    assert_eq!(claims.username, "alice");
}

#[test]
fn test_full_signup_login_authenticate_scenario() {
    let mut repo = MockUserRepository::default();
    let tokens = TokenService::new(None);

    // signup("alice") succeeds with a non-empty generated identifier
    let user = sign_up(&mut repo, "alice".to_string()).unwrap();
    assert!(!user.id.is_empty());

    // signup("alice") again fails with UserAlreadyExists
    let again = sign_up(&mut repo, "alice".to_string());
    assert!(matches!(again.unwrap_err(), AuthServiceError::UserAlreadyExists));

    // login("alice") succeeds with a non-empty token
    let response = login(&repo, &tokens, "alice".to_string()).unwrap();
    assert!(!response.token.is_empty());

    // authenticate("Bearer " + token) yields alice's identifier as subject
    let header = format!("Bearer {}", response.token);
    let claims = tokens.authenticate(Some(&header)).unwrap();
    assert_eq!(claims.sub, user.id);
    assert_eq!(claims.username, "alice");
}
