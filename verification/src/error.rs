//! The error taxonomy of the authentication core and the HTTP status that
//! each error is reported with.

use vstd::prelude::*;

verus! {

/// Why a request was refused before any state was touched.
#[derive(Clone, Copy, Debug, PartialEq, Eq, Structural)]
pub enum ValidationIssue {
    /// A required field is empty.
    MissingFields,
    /// The e-mail address has neither the form `local@domain` nor a dot.
    InvalidEmail,
    /// The password is too short or lacks one of the character classes.
    WeakPassword,
    /// The current password given with a change request does not match.
    WrongCurrentPassword,
    /// A profile update that changes nothing.
    NoUpdates,
}

/// Everything that can go wrong in the authentication core.
#[derive(Clone, Copy, Debug, PartialEq, Eq, Structural)]
pub enum AuthError {
    /// Malformed or missing fields.
    Validation(ValidationIssue),
    /// Missing, invalid or expired bearer token, or wrong credentials.
    Unauthorized,
    /// The anti-forgery check failed.
    Forbidden,
    /// The addressed record does not exist.
    NotFound,
    /// The e-mail address is already registered.
    Conflict,
    /// The account is inside its lock window.
    AccountLocked,
    /// Too many requests.
    RateLimited,
    /// A single-use token is unknown, used or expired; the three are never
    /// told apart.
    InvalidOrExpiredToken,
    /// Hashing, signing or storage failed.
    Internal,
}

/// The HTTP status of each error.
pub open spec fn status_of(e: AuthError) -> u16 {
    match e {
        AuthError::Validation(_) => 400,
        AuthError::Unauthorized => 401,
        AuthError::Forbidden => 403,
        AuthError::NotFound => 404,
        AuthError::Conflict => 409,
        AuthError::AccountLocked => 423,
        AuthError::RateLimited => 429,
        AuthError::InvalidOrExpiredToken => 400,
        AuthError::Internal => 500,
    }
}

impl AuthError {
    /// The HTTP status this error is reported with.
    pub fn status_code(self) -> (r: u16)
        ensures
            r == status_of(self),
    {
        match self {
            AuthError::Validation(_) => 400,
            AuthError::Unauthorized => 401,
            AuthError::Forbidden => 403,
            AuthError::NotFound => 404,
            AuthError::Conflict => 409,
            AuthError::AccountLocked => 423,
            AuthError::RateLimited => 429,
            AuthError::InvalidOrExpiredToken => 400,
            AuthError::Internal => 500,
        }
    }

    /// The text shown to the caller. Wrong credentials, unknown accounts and
    /// bad bearer tokens share one text, and so do the three ways in which a
    /// single-use token can be bad.
    pub fn message(self) -> (r: &'static str)
        ensures
            r@ == message_of(self),
    {
        match self {
            AuthError::Validation(ValidationIssue::MissingFields) => "Required fields are missing",
            AuthError::Validation(ValidationIssue::InvalidEmail) => "Invalid email format",
            AuthError::Validation(ValidationIssue::WeakPassword) =>
                "Password must be at least 8 characters with uppercase, lowercase, number, and special character",
            AuthError::Validation(ValidationIssue::WrongCurrentPassword) =>
                "Current password is incorrect",
            AuthError::Validation(ValidationIssue::NoUpdates) => "No valid updates provided",
            AuthError::Unauthorized => "Unauthorized",
            AuthError::Forbidden => "CSRF token validation failed",
            AuthError::NotFound => "Not found",
            AuthError::Conflict => "User with this email already exists",
            AuthError::AccountLocked => "Account is locked due to too many failed login attempts",
            AuthError::RateLimited => "Too many requests. Please try again later",
            AuthError::InvalidOrExpiredToken => "Invalid or expired token",
            AuthError::Internal => "Internal error",
        }
    }
}

/// The text of each error.
pub open spec fn message_of(e: AuthError) -> Seq<char> {
    match e {
        AuthError::Validation(ValidationIssue::MissingFields) => "Required fields are missing"@,
        AuthError::Validation(ValidationIssue::InvalidEmail) => "Invalid email format"@,
        AuthError::Validation(ValidationIssue::WeakPassword) =>
            "Password must be at least 8 characters with uppercase, lowercase, number, and special character"@,
        AuthError::Validation(ValidationIssue::WrongCurrentPassword) =>
            "Current password is incorrect"@,
        AuthError::Validation(ValidationIssue::NoUpdates) => "No valid updates provided"@,
        AuthError::Unauthorized => "Unauthorized"@,
        AuthError::Forbidden => "CSRF token validation failed"@,
        AuthError::NotFound => "Not found"@,
        AuthError::Conflict => "User with this email already exists"@,
        AuthError::AccountLocked => "Account is locked due to too many failed login attempts"@,
        AuthError::RateLimited => "Too many requests. Please try again later"@,
        AuthError::InvalidOrExpiredToken => "Invalid or expired token"@,
        AuthError::Internal => "Internal error"@,
    }
}

} // verus!
