use vstd::prelude::*;

verus! {

/// A registered principal as the credential store holds it.
#[derive(Debug, Clone)]
pub struct User {
    /// Store-assigned key, as lowercase hex; `None` until the store assigns it.
    pub id: Option<String>,
    pub username: String,
    /// Unique natural key used for lookup.
    pub email: String,
    /// Self-describing Argon2 digest; never sent in any response.
    pub hashed_password: String,
}

/// Credentials presented at login.
#[derive(Debug, Clone)]
pub struct LoginRequest {
    pub email: String,
    pub password: String,
}

/// A successful login: the bearer token for later requests.
#[derive(Debug, Clone)]
pub struct LoginResponse {
    pub token: String,
}

/// A request to open an account.
#[derive(Debug, Clone)]
pub struct RegisterRequest {
    pub username: String,
    pub email: String,
    pub password: String,
}

/// A successful registration.
#[derive(Debug, Clone)]
pub struct RegisterResponse {
    pub message: String,
}

/// The identity of an authenticated caller.
#[derive(Debug, Clone)]
pub struct UserResponse {
    pub username: String,
    pub email: String,
}

} // verus!
