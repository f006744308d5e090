use vstd::prelude::*;

verus! {

/// Signup request data.
#[derive(Debug, Clone)]
pub struct SignupRequest {
    pub username: String,
}

/// Login request data.
#[derive(Debug, Clone)]
pub struct LoginRequest {
    pub username: String,
}

/// Reply to a successful signup: the stored identity record.
#[derive(Debug, Clone)]
pub struct UserResponse {
    /// The freshly generated, opaque user identifier.
    pub id: String,
    pub username: String,
}

/// Reply to a successful login.
#[derive(Debug, Clone)]
pub struct LoginResponse {
    /// The serialized identity token.
    pub token: String,
    pub user_id: String,
    pub username: String,
}

} // verus!
