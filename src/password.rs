use vstd::prelude::*;
use crate::error::AuthError;

verus! {

/// Whether Argon2 with the parameters and salt embedded in the PHC string
/// `digest` gives back the digest's hash output for `password`; `None` when
/// `digest` is not a PHC string.
pub uninterp spec fn argon2_verdict(password: Seq<char>, digest: Seq<char>) -> Option<bool>;

#[verifier::external_type_specification]
#[verifier::external_body]
pub struct ExPasswordHashError(argon2::password_hash::Error);

/// Relies on `OsRng::try_fill_bytes` for 16 random salt bytes (a failure of
/// the OS random source comes back as `Error::Crypto`, never a panic), on
/// `SaltString::encode_b64`, and on `Argon2::default().hash_password`,
/// rendered as a PHC string that embeds the algorithm, version, parameters
/// and salt. The verifier recomputes the hash from exactly those, so the
/// digest verifies against the password it was made from. The salt is
/// random: nothing else is known of the digest.
#[verifier::external_body]
fn argon2_hash(password: &str) -> (r: Result<String, argon2::password_hash::Error>)
    ensures
        r matches Ok(d) ==> argon2_verdict(password@, d@) == Some(true),
{
    let mut bytes = [0u8; 16];
    rand::RngCore::try_fill_bytes(&mut rand::rngs::OsRng, &mut bytes)
        .map_err(|_| argon2::password_hash::Error::Crypto)?;
    let salt = argon2::password_hash::SaltString::encode_b64(&bytes)?;
    let hasher = argon2::Argon2::default();
    argon2::password_hash::PasswordHasher::hash_password(&hasher, password.as_bytes(), &salt)
        .map(|h| h.to_string())
}

/// Relies on `PasswordHash::new`, which parses the PHC string, and on
/// `Argon2::default().verify_password`, which recomputes the hash with the
/// parsed parameters and salt and compares outputs in constant time; any
/// refusal by the verifier counts as a mismatch.
#[verifier::external_body]
fn argon2_verify(password: &str, digest: &str) -> (r: Result<bool, argon2::password_hash::Error>)
    ensures
        match r {
            Ok(b) => argon2_verdict(password@, digest@) == Some(b),
            Err(_) => argon2_verdict(password@, digest@) is None,
        },
{
    let parsed = argon2::password_hash::PasswordHash::new(digest)?;
    let hasher = argon2::Argon2::default();
    Ok(argon2::password_hash::PasswordVerifier::verify_password(&hasher, password.as_bytes(), &parsed).is_ok())
}

/// What verifying `password` against `digest` yields.
pub open spec fn verify_outcome(password: Seq<char>, digest: Seq<char>) -> Result<bool, AuthError> {
    match argon2_verdict(password, digest) {
        Some(b) => Ok(b),
        None => Err(AuthError::MalformedDigest),
    }
}

/// Hashes `password` with a fresh random salt into a self-describing digest.
/// A digest that comes back always verifies against `password`; a failure of
/// the random source or of the hasher is reported as `Internal`.
pub fn hash_password(password: &str) -> (r: Result<String, AuthError>)
    ensures
        r matches Ok(d) ==> verify_outcome(password@, d@) == Ok::<bool, AuthError>(true),
        r matches Err(e) ==> e == AuthError::Internal,
{
    match argon2_hash(password) {
        Ok(d) => Ok(d),
        Err(_) => Err(AuthError::Internal),
    }
}

/// Checks `password` against the stored digest `hashed_password`: whether it
/// matches, or `MalformedDigest` when the digest cannot be parsed.
pub fn verify_password(password: &str, hashed_password: &str) -> (r: Result<bool, AuthError>)
    ensures
        r == verify_outcome(password@, hashed_password@),
{
    match argon2_verify(password, hashed_password) {
        Ok(b) => Ok(b),
        Err(_) => Err(AuthError::MalformedDigest),
    }
}

} // verus!
