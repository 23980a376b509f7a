//! The closed set of failures the authentication engine reports.
use vstd::prelude::*;
use vstd::string::StringExecFns;

verus! {

/// Authentication error types.
#[derive(Debug, Clone)]
pub enum AuthError {
    InvalidCredentials,
    AccountLocked,
    TokenExpired,
    InvalidToken,
    PasswordTooWeak,
    PasswordMismatch,
    TooManyAttempts,
    SessionExpired,
    Unauthorized,
    InternalError(String),
}

/// Result of an authentication operation.
pub type AuthResult<T> = Result<T, AuthError>;

impl AuthError {
    /// The caller-facing text of the error.
    pub fn message(&self) -> (r: String) {
        match self {
            AuthError::InvalidCredentials => String::from_str("Invalid username or password"),
            AuthError::AccountLocked => String::from_str("Account is temporarily locked"),
            AuthError::TokenExpired => String::from_str("Authentication token has expired"),
            AuthError::InvalidToken => String::from_str("Invalid authentication token"),
            AuthError::PasswordTooWeak => String::from_str(
                "Password does not meet security requirements",
            ),
            AuthError::PasswordMismatch => String::from_str("Passwords do not match"),
            AuthError::TooManyAttempts => String::from_str("Too many failed login attempts"),
            AuthError::SessionExpired => String::from_str("Session has expired"),
            AuthError::Unauthorized => String::from_str("Unauthorized access"),
            AuthError::InternalError(msg) => String::from_str("Internal error: ").concat(
                msg.as_str(),
            ),
        }
    }
}

} // verus!
