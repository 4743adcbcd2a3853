//! Accounts: the answers that registration and login give.
use vstd::prelude::*;

verus! {

/// How long a credential stays valid, in seconds.
pub const TOKEN_LIFETIME_SECS: i64 = 86400;

/// A user name with its password, as a client submits them.
#[derive(Debug)]
pub struct AuthPayload {
    pub username: String,
    pub password: String,
}

/// A freshly signed credential.
#[derive(Debug)]
pub struct AuthResponse {
    pub token: String,
}

/// Why registration or login failed.
#[derive(Debug, Clone, Copy, PartialEq, Eq, Structural)]
pub enum AuthError {
    UsernameExists,
    InvalidCredentials,
    ServerError,
    TokenCreationError,
}

/// The text that explains an error to the client.
pub open spec fn auth_error_text(e: AuthError) -> Seq<char> {
    match e {
        AuthError::UsernameExists => "Username already exists"@,
        AuthError::InvalidCredentials => "Invalid credentials"@,
        AuthError::ServerError => "Server error"@,
        AuthError::TokenCreationError => "Could not create token"@,
    }
}

/// The HTTP status that answers an error.
pub open spec fn auth_error_status(e: AuthError) -> u16 {
    match e {
        AuthError::UsernameExists => 409,
        AuthError::InvalidCredentials => 401,
        AuthError::ServerError => 500,
        AuthError::TokenCreationError => 500,
    }
}

impl AuthError {
    /// The text that explains the error to the client.
    pub fn message(&self) -> (r: String)
        ensures
            r@ == auth_error_text(*self),
    {
        match self {
            AuthError::UsernameExists => String::from_str("Username already exists"),
            AuthError::InvalidCredentials => String::from_str("Invalid credentials"),
            AuthError::ServerError => String::from_str("Server error"),
            AuthError::TokenCreationError => String::from_str("Could not create token"),
        }
    }

    /// The HTTP status: conflict for a taken name, unauthorized for bad
    /// credentials, internal error otherwise.
    pub fn status(&self) -> (r: u16)
        ensures
            r == auth_error_status(*self),
    {
        match self {
            AuthError::UsernameExists => 409,
            AuthError::InvalidCredentials => 401,
            AuthError::ServerError => 500,
            AuthError::TokenCreationError => 500,
        }
    }
}

/// The expiry, in seconds since the epoch, of a credential signed at `now`;
/// `None` when it cannot be represented.
pub fn token_expiry(now: i64) -> (r: Option<i64>)
    ensures
        now + TOKEN_LIFETIME_SECS <= i64::MAX ==> r == Some((now + TOKEN_LIFETIME_SECS) as i64),
        now + TOKEN_LIFETIME_SECS > i64::MAX ==> r is None,
{
    now.checked_add(TOKEN_LIFETIME_SECS)
}

} // verus!
