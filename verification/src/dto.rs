//! The bodies that the API reads and answers, as plain values.
use vstd::prelude::*;

verus! {

/// The body answered by the health check.
#[derive(Debug)]
pub struct HealthResponse {
    pub status: &'static str,
}

/// A registration request.
#[derive(Debug)]
pub struct RegisterBody {
    pub username: String,
    pub password: String,
    pub display_name: String,
}

/// A login request.
#[derive(Debug)]
pub struct LoginBody {
    pub username: String,
    pub password: String,
}

/// A request to exchange a refresh token for new tokens.
#[derive(Debug)]
pub struct RefreshBody {
    pub refresh_token: String,
}

/// The tokens answered after registration, login or refresh.
#[derive(Debug)]
pub struct AuthResponse {
    pub access_token: String,
    pub refresh_token: String,
    pub expires_in: u64,
}

/// The profile answered to an authenticated user.
#[derive(Debug)]
pub struct UserResponse {
    pub id: String,
    pub username: String,
    pub display_name: String,
    pub avatar_url: Option<String>,
}

/// What a decoded token says: whose it is (`sub`) and what it is for (`typ`).
#[derive(Debug)]
pub struct Claims {
    pub sub: String,
    pub typ: String,
}

/// The stored credentials of the user a login names.
#[derive(Debug)]
pub struct LoginRecord {
    pub user_id: String,
    pub password_hash: String,
}

/// The stored profile of an active user.
#[derive(Debug)]
pub struct UserRecord {
    pub id: String,
    pub username: String,
    pub display_name: String,
}

/// How storing a new user ended.
#[derive(Debug)]
pub enum InsertOutcome {
    /// The user was stored.
    Inserted,
    /// Another user already holds the username.
    UniqueViolation,
    /// The store failed for another reason, described by the message.
    Failed(String),
}

} // verus!
