use vstd::prelude::*;

verus! {

/// Domain-level outcome of the authentication service. The service never
/// leaks storage detail: every repository failure is collapsed into
/// `DatabaseError`, and every token-verification failure into `Unauthorized`.
#[derive(Clone, Copy, Debug, PartialEq, Eq, Structural)]
pub enum AuthServiceError {
    /// Signup conflict: a user with the requested name already exists.
    UserAlreadyExists,
    /// Login with an unknown user, or any token-verification failure.
    Unauthorized,
    /// A repository-level failure, surfaced without further detail.
    DatabaseError,
    /// Token issuance or signing failed: a server-side fault.
    InternalError,
}

/// The single failure signal of the storage layer. Any backend error is
/// collapsed into this one category before it reaches the service.
#[derive(Clone, Copy, Debug, PartialEq, Eq, Structural)]
pub struct RepoError;

/// Transport-level error: what the HTTP boundary turns a service outcome into.
#[derive(Debug)]
pub enum AppError {
    NotFound(String),
    BadRequest(String),
    Conflict(String),
    Unauthorized(String),
    InternalServerError(String),
}

/// Body of an error reply.
#[derive(Debug)]
pub struct ErrorResponse {
    pub message: String,
}

impl AppError {
    /// The HTTP status code and reply body for this error. The transport
    /// adapter only has to wrap the pair into a wire-level response.
    pub fn response_parts(self) -> (r: (u16, ErrorResponse))
        ensures
            match self {
                AppError::NotFound(m) => r.0 == 404 && r.1.message@ == m@,
                AppError::BadRequest(m) => r.0 == 400 && r.1.message@ == m@,
                AppError::Conflict(m) => r.0 == 409 && r.1.message@ == m@,
                AppError::Unauthorized(m) => r.0 == 401 && r.1.message@ == m@,
                AppError::InternalServerError(m) => r.0 == 500 && r.1.message@ == m@,
            },
    {
        let (status, message): (u16, String) = match self {
            AppError::NotFound(m) => (404, m),
            AppError::BadRequest(m) => (400, m),
            AppError::Conflict(m) => (409, m),
            AppError::Unauthorized(m) => (401, m),
            AppError::InternalServerError(m) => (500, m),
        };
        (status, ErrorResponse { message })
    }
}

/// Stateless mapping from a service outcome to the transport error that the
/// handlers reply with.
pub fn auth_error_to_app(e: AuthServiceError) -> (r: AppError)
    ensures
        e == AuthServiceError::UserAlreadyExists ==> (r matches AppError::Conflict(m)
            && m@ == "Username already exists"@),
        e == AuthServiceError::DatabaseError ==> (r matches AppError::InternalServerError(m)
            && m@ == "Database error occurred"@),
        e == AuthServiceError::Unauthorized ==> (r matches AppError::Unauthorized(m)
            && m@ == "Unauthorized"@),
        e == AuthServiceError::InternalError ==> (r matches AppError::InternalServerError(m)
            && m@ == "Token generation failed"@),
{
    match e {
        AuthServiceError::UserAlreadyExists => AppError::Conflict(
            "Username already exists".to_owned(),
        ),
        AuthServiceError::DatabaseError => AppError::InternalServerError(
            "Database error occurred".to_owned(),
        ),
        AuthServiceError::Unauthorized => AppError::Unauthorized("Unauthorized".to_owned()),
        AuthServiceError::InternalError => AppError::InternalServerError(
            "Token generation failed".to_owned(),
        ),
    }
}

} // verus!
