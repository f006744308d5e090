use auth_core::error::AuthServiceError;
use auth_core::jwt::TokenService;
use auth_core::repository::MockUserRepository;
use auth_core::service::{login, sign_up};

#[test]
fn test_signup_success() {
    let mut repo = MockUserRepository::default();
    let username = "john".to_string();

    let result = sign_up(&mut repo, username);

    assert!(result.is_ok(), "회원가입이 성공해야 합니다");
    let user = result.unwrap();
    assert_eq!(user.username, "john", "username이 'john'이어야 합니다");
}

#[test]
fn test_signup_duplicate_user() {
    let mut repo = MockUserRepository::default();
    sign_up(&mut repo, "john".to_string()).unwrap();

    let result = sign_up(&mut repo, "john".to_string());

    assert!(result.is_err(), "중복 사용자는 에러를 반환해야 합니다");
    let error = result.unwrap_err();
    assert!(
        matches!(error, AuthServiceError::UserAlreadyExists),
        "UserAlreadyExists 에러여야 합니다"
    );
}

#[test]
fn test_signup_database_error() {
    let mut repo = MockUserRepository::default();
    repo.set_save_failure(true);

    let result = sign_up(&mut repo, "john".to_string());

    assert!(result.is_err(), "DB 에러 시 실패해야 합니다");
    let error = result.unwrap_err();
    assert!(matches!(error, AuthServiceError::DatabaseError), "DatabaseError여야 합니다");
}

#[test]
fn test_signup_empty_username() {
    let mut repo = MockUserRepository::default();

    let result = sign_up(&mut repo, "".to_string());

    assert!(result.is_ok(), "현재는 빈 username도 허용됩니다");
}

#[test]
fn test_login_success() {
    let mut repo = MockUserRepository::default();
    let user = sign_up(&mut repo, "john".to_string()).unwrap();
    let tokens = TokenService::new(None);

    let result = login(&repo, &tokens, "john".to_string());

    assert!(result.is_ok());
    let response = result.unwrap();
    assert_eq!(response.username, "john");
    assert!(!response.token.is_empty());
    assert_eq!(response.user_id, user.id);
}

#[test]
fn test_login_not_found() {
    let repo = MockUserRepository::default();
    let tokens = TokenService::new(None);

    let result = login(&repo, &tokens, "unknown".to_string());

    assert!(result.is_err());
    assert!(matches!(result.unwrap_err(), AuthServiceError::Unauthorized));
}

#[test]
fn test_signup_exists_check_failure() {
    let mut repo = MockUserRepository::default();
    repo.set_exists_failure(true);

    let result = sign_up(&mut repo, "john".to_string());

    assert!(matches!(result.unwrap_err(), AuthServiceError::DatabaseError));
}

#[test]
fn test_login_lookup_failure() {
    let mut repo = MockUserRepository::default();
    sign_up(&mut repo, "john".to_string()).unwrap();
    repo.set_find_failure(true);
    let tokens = TokenService::new(None);

    let result = login(&repo, &tokens, "john".to_string());

    assert!(matches!(result.unwrap_err(), AuthServiceError::DatabaseError));
}

#[test]
fn test_signup_generates_uuid_shaped_id() {
    let mut repo = MockUserRepository::default();

    let user = sign_up(&mut repo, "john".to_string()).unwrap();

    assert_eq!(user.id.chars().count(), 36);
    assert!(!user.id.is_empty());
}

#[test]
fn test_signup_then_login_round_trip() {
    let mut repo = MockUserRepository::default();
    let tokens = TokenService::new(Some("round-trip-secret".to_string()));
    let user = sign_up(&mut repo, "carol".to_string()).unwrap();

    let response = login(&repo, &tokens, "carol".to_string()).unwrap();
    let claims = tokens.verify_token(response.token.as_str()).unwrap();

    assert_eq!(claims.sub, user.id);
    assert_eq!(claims.username, "carol");
}
