//! The error taxonomy of the identity subsystem. Every failure a verified
//! function can report is one of these variants; the HTTP layer maps them to
//! status codes without inspecting anything else.

use vstd::prelude::*;

verus! {

#[derive(PartialEq, Eq, Structural, Clone, Copy, Debug)]
pub enum AuthError {
    /// Wrong password or no password credential on the account.
    InvalidCredentials,
    /// A completed account already uses this normalized email.
    EmailAlreadyExists,
    /// Another account already uses this username.
    UsernameAlreadyExists,
    /// Profile completion attempted before the email was verified.
    NotVerified,
    /// Session token malformed or its signature did not check out.
    TokenInvalid,
    /// Session token was valid once but its expiry has passed.
    TokenExpired,
    /// No bearer token was presented at all.
    TokenMissing,
    /// Verification code missing, mismatched or expired (deliberately
    /// uniform).
    CodeInvalid,
    /// Reset token unknown, already used, or expired (deliberately uniform).
    ResetTokenInvalid,
    /// Authenticated, but the role does not allow the operation.
    Forbidden,
    /// No user record matches the lookup key.
    UserNotFound,
    /// A lookup request named none of the supported keys.
    MissingCriteria,
    /// The supplied password does not meet the minimum length.
    WeakPassword,
    /// A timestamp string could not be read.
    InvalidDate,
    /// The supplied role is not one the system knows.
    InvalidRole,
    /// No x-api-key header was presented.
    ApiKeyMissing,
    /// The presented x-api-key matches no client.
    ApiKeyInvalid,
    /// The presented x-api-key belongs to a deactivated client.
    ApiKeyInactive,
    /// Hashing or signing failed, or the id space is exhausted; fatal.
    Internal,
}

/// The HTTP status under which each failure is surfaced. Token problems all
/// collapse to 401 so that callers cannot distinguish them.
pub open spec fn status_of(e: AuthError) -> int {
    match e {
        AuthError::InvalidCredentials => 401,
        AuthError::EmailAlreadyExists => 409,
        AuthError::UsernameAlreadyExists => 409,
        AuthError::NotVerified => 401,
        AuthError::TokenInvalid => 401,
        AuthError::TokenExpired => 401,
        AuthError::TokenMissing => 401,
        AuthError::CodeInvalid => 400,
        AuthError::ResetTokenInvalid => 400,
        AuthError::Forbidden => 403,
        AuthError::UserNotFound => 404,
        AuthError::MissingCriteria => 400,
        AuthError::WeakPassword => 400,
        AuthError::InvalidDate => 400,
        AuthError::InvalidRole => 400,
        AuthError::ApiKeyMissing => 401,
        AuthError::ApiKeyInvalid => 401,
        AuthError::ApiKeyInactive => 401,
        AuthError::Internal => 500,
    }
}

/// The machine-readable code under which each failure is reported.
pub open spec fn code_of(e: AuthError) -> Seq<char> {
    match e {
        AuthError::InvalidCredentials => "INVALID_CREDENTIALS"@,
        AuthError::EmailAlreadyExists => "EMAIL_EXISTS"@,
        AuthError::UsernameAlreadyExists => "USERNAME_EXISTS"@,
        AuthError::NotVerified => "NOT_VERIFIED"@,
        AuthError::TokenInvalid => "JWT_INVALID"@,
        AuthError::TokenExpired => "JWT_EXPIRED"@,
        AuthError::TokenMissing => "JWT_MISSING"@,
        AuthError::CodeInvalid => "CODE_INVALID"@,
        AuthError::ResetTokenInvalid => "RESET_TOKEN_INVALID"@,
        AuthError::Forbidden => "FORBIDDEN"@,
        AuthError::UserNotFound => "USER_NOT_FOUND"@,
        AuthError::MissingCriteria => "BAD_REQUEST"@,
        AuthError::WeakPassword => "BAD_REQUEST"@,
        AuthError::InvalidDate => "BAD_REQUEST"@,
        AuthError::InvalidRole => "BAD_REQUEST"@,
        AuthError::ApiKeyMissing => "API_KEY_MISSING"@,
        AuthError::ApiKeyInvalid => "API_KEY_INVALID"@,
        AuthError::ApiKeyInactive => "API_KEY_INACTIVE"@,
        AuthError::Internal => "INTERNAL"@,
    }
}

impl AuthError {
    pub fn status(&self) -> (r: u16)
        ensures
            r == status_of(*self),
    {
        match self {
            AuthError::InvalidCredentials => 401,
            AuthError::EmailAlreadyExists => 409,
            AuthError::UsernameAlreadyExists => 409,
            AuthError::NotVerified => 401,
            AuthError::TokenInvalid => 401,
            AuthError::TokenExpired => 401,
            AuthError::TokenMissing => 401,
            AuthError::CodeInvalid => 400,
            AuthError::ResetTokenInvalid => 400,
            AuthError::Forbidden => 403,
            AuthError::UserNotFound => 404,
            AuthError::MissingCriteria => 400,
            AuthError::WeakPassword => 400,
            AuthError::InvalidDate => 400,
            AuthError::InvalidRole => 400,
            AuthError::ApiKeyMissing => 401,
            AuthError::ApiKeyInvalid => 401,
            AuthError::ApiKeyInactive => 401,
            AuthError::Internal => 500,
        }
    }

    /// The stable machine-readable code reported beside the status.
    pub fn code(&self) -> (r: &'static str)
        ensures
            r@ == code_of(*self),
    {
        match self {
            AuthError::InvalidCredentials => "INVALID_CREDENTIALS",
            AuthError::EmailAlreadyExists => "EMAIL_EXISTS",
            AuthError::UsernameAlreadyExists => "USERNAME_EXISTS",
            AuthError::NotVerified => "NOT_VERIFIED",
            AuthError::TokenInvalid => "JWT_INVALID",
            AuthError::TokenExpired => "JWT_EXPIRED",
            AuthError::TokenMissing => "JWT_MISSING",
            AuthError::CodeInvalid => "CODE_INVALID",
            AuthError::ResetTokenInvalid => "RESET_TOKEN_INVALID",
            AuthError::Forbidden => "FORBIDDEN",
            AuthError::UserNotFound => "USER_NOT_FOUND",
            AuthError::MissingCriteria => "BAD_REQUEST",
            AuthError::WeakPassword => "BAD_REQUEST",
            AuthError::InvalidDate => "BAD_REQUEST",
            AuthError::InvalidRole => "BAD_REQUEST",
            AuthError::ApiKeyMissing => "API_KEY_MISSING",
            AuthError::ApiKeyInvalid => "API_KEY_INVALID",
            AuthError::ApiKeyInactive => "API_KEY_INACTIVE",
            AuthError::Internal => "INTERNAL",
        }
    }
}

} // verus!
