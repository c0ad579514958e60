use vstd::prelude::*;

verus! {

/// Why an authentication operation was refused.
#[derive(Debug, Clone, Copy, PartialEq, Eq, Structural)]
pub enum AuthError {
    /// A stored password digest is not in the self-describing format.
    MalformedDigest,
    /// A token with a bad signature, a malformed structure, or past its expiry.
    InvalidToken,
    /// No authorization header, or one that is not `Bearer <token>`.
    MissingCredential,
    /// A token whose subject can no longer be resolved.
    Unauthorized,
    /// Registration of an email that is already taken.
    Conflict,
    /// A password that does not match the stored digest.
    InvalidCredentials,
    /// Login against an email that has no account.
    NotFound,
    /// The credential store could not be read.
    LookupFailed,
    /// The credential store refused to save a new account for a reason
    /// other than a taken email.
    SaveFailed,
    /// Any other infrastructure failure: the clock, the random source or
    /// the hasher.
    Internal,
}

/// The HTTP status that each error is reported with.
pub open spec fn status_of(e: AuthError) -> u16 {
    match e {
        AuthError::InvalidToken
        | AuthError::MissingCredential
        | AuthError::Unauthorized
        | AuthError::InvalidCredentials => 401,
        AuthError::Conflict => 409,
        AuthError::NotFound => 404,
        AuthError::MalformedDigest
        | AuthError::LookupFailed
        | AuthError::SaveFailed
        | AuthError::Internal => 500,
    }
}

impl AuthError {
    /// The HTTP status of this error.
    pub fn status(&self) -> (r: u16)
        ensures
            r == status_of(*self),
    {
        match self {
            AuthError::InvalidToken
            | AuthError::MissingCredential
            | AuthError::Unauthorized
            | AuthError::InvalidCredentials => 401,
            AuthError::Conflict => 409,
            AuthError::NotFound => 404,
            AuthError::MalformedDigest
            | AuthError::LookupFailed
            | AuthError::SaveFailed
            | AuthError::Internal => 500,
        }
    }

    /// The body sent to the caller: a fixed sentence per error that names
    /// no internal cause, digest, key or store detail. A refused token and a
    /// subject with no account share one sentence, which keeps account
    /// existence hidden from bearer requests.
    pub fn public_message(&self) -> (r: &'static str)
        ensures
            *self == AuthError::MalformedDigest ==> r@ == "Internal server error"@,
            *self == AuthError::InvalidToken ==> r@ == "Invalid token"@,
            *self == AuthError::MissingCredential ==> r@ == "Missing credentials"@,
            *self == AuthError::Unauthorized ==> r@ == "Invalid token"@,
            *self == AuthError::Conflict ==> r@ == "User already exists"@,
            *self == AuthError::InvalidCredentials ==> r@ == "Invalid password"@,
            *self == AuthError::NotFound ==> r@ == "User not found"@,
            *self == AuthError::LookupFailed ==> r@ == "Failed to retrieve user"@,
            *self == AuthError::SaveFailed ==> r@ == "Failed to save user"@,
            *self == AuthError::Internal ==> r@ == "Internal server error"@,
    {
        match self {
            AuthError::MalformedDigest => "Internal server error",
            AuthError::InvalidToken => "Invalid token",
            AuthError::MissingCredential => "Missing credentials",
            AuthError::Unauthorized => "Invalid token",
            AuthError::Conflict => "User already exists",
            AuthError::InvalidCredentials => "Invalid password",
            AuthError::NotFound => "User not found",
            AuthError::LookupFailed => "Failed to retrieve user",
            AuthError::SaveFailed => "Failed to save user",
            AuthError::Internal => "Internal server error",
        }
    }
}

/// What the credential store reports when an operation fails.
#[derive(Debug, Clone, Copy, PartialEq, Eq, Structural)]
pub enum StoreError {
    /// The store's uniqueness constraint on the email refused an insert.
    Duplicate,
    /// Connectivity, serialization or any other failure.
    Failed,
}

} // verus!
