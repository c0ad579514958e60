use vstd::prelude::*;
use crate::error::{AuthError, StoreError};
use crate::model::{LoginRequest, LoginResponse, RegisterRequest, RegisterResponse, User, UserResponse};
use crate::password::{hash_password, verify_outcome, verify_password};
use crate::gate::{bearer_header, gate_outcome, lemma_bearer_header_round_trip};
use crate::token::{mint_token, signed_token, TOKEN_LIFETIME_SECS};

verus! {

/// The message of a successful registration.
pub open spec fn registered_message() -> Seq<char> {
    seq!['U', 's', 'e', 'r', ' ', 'r', 'e', 'g', 'i', 's', 't', 'e', 'r', 'e', 'd', ' ',
        's', 'u', 'c', 'c', 'e', 's', 's', 'f', 'u', 'l', 'l', 'y']
}

/// First step of registration, given what the store holds under the
/// requested email. A taken email is a `Conflict`, a failed lookup is
/// `LookupFailed`; otherwise the record to insert: the requested name and
/// email, no key yet, and a digest that verifies against the password.
pub fn register(existing: Result<Option<User>, StoreError>, payload: &RegisterRequest) -> (r: Result<User, AuthError>)
    ensures
        existing is Err ==> r == Err::<User, AuthError>(AuthError::LookupFailed),
        existing matches Ok(Some(_)) ==> r == Err::<User, AuthError>(AuthError::Conflict),
        existing matches Ok(None) ==> r matches Err(e) ==> e == AuthError::Internal,
        r matches Ok(u) ==> {
            &&& existing matches Ok(None)
            &&& u.id is None
            &&& u.username@ == payload.username@
            &&& u.email@ == payload.email@
            &&& verify_outcome(payload.password@, u.hashed_password@) == Ok::<bool, AuthError>(true)
        },
{
    match existing {
        Err(_) => Err(AuthError::LookupFailed),
        Ok(Some(_)) => Err(AuthError::Conflict),
        Ok(None) => match hash_password(payload.password.as_str()) {
            Ok(d) => Ok(User {
                id: None,
                username: payload.username.clone(),
                email: payload.email.clone(),
                hashed_password: d,
            }),
            Err(e) => Err(e),
        },
    }
}

/// Second step of registration, given how the insert went. A refusal by the
/// store's uniqueness constraint is a `Conflict`, any other failure
/// `SaveFailed`.
pub fn registration_saved(saved: Result<(), StoreError>) -> (r: Result<RegisterResponse, AuthError>)
    ensures
        saved is Ok ==> (r matches Ok(m) && m.message@ == registered_message()),
        saved == Err::<(), StoreError>(StoreError::Duplicate) ==> r == Err::<RegisterResponse, AuthError>(AuthError::Conflict),
        saved == Err::<(), StoreError>(StoreError::Failed) ==> r == Err::<RegisterResponse, AuthError>(AuthError::SaveFailed),
{
    match saved {
        Ok(()) => {
            let message = String::from_str("User registered successfully");
            proof {
                reveal_strlit("User registered successfully");
            }
            assert(message@ == registered_message());
            Ok(RegisterResponse { message })
        },
        Err(StoreError::Duplicate) => Err(AuthError::Conflict),
        Err(StoreError::Failed) => Err(AuthError::SaveFailed),
    }
}

/// Login, given what the store holds under the presented email and the
/// current time. No account is `NotFound`; a password that does not match is
/// `InvalidCredentials`; otherwise a token for the account's email that
/// expires a day after `now`, which the authorization gate, sent as
/// `Bearer <token>`, resolves to that email until then.
pub fn login(found: Result<Option<User>, StoreError>, payload: &LoginRequest, secret: &[u8], now: u64) -> (r: Result<LoginResponse, AuthError>)
    ensures
        found is Err ==> r == Err::<LoginResponse, AuthError>(AuthError::LookupFailed),
        found matches Ok(None) ==> r == Err::<LoginResponse, AuthError>(AuthError::NotFound),
        found matches Ok(Some(u)) ==> match verify_outcome(payload.password@, u.hashed_password@) {
            Err(e) => r == Err::<LoginResponse, AuthError>(e),
            Ok(false) => r == Err::<LoginResponse, AuthError>(AuthError::InvalidCredentials),
            Ok(true) => if secret@.len() > 0 && now <= u64::MAX - TOKEN_LIFETIME_SECS {
                r matches Ok(resp)
                    && resp.token@ == signed_token(u.email@, (now + TOKEN_LIFETIME_SECS) as u64, secret@)
                    && forall|at: u64|
                        #![trigger gate_outcome(Some(bearer_header(resp.token@)), secret@, at)]
                        gate_outcome(Some(bearer_header(resp.token@)), secret@, at) == if at < now + TOKEN_LIFETIME_SECS {
                            Ok::<Seq<char>, AuthError>(u.email@)
                        } else {
                            Err::<Seq<char>, AuthError>(AuthError::Unauthorized)
                        }
            } else {
                r == Err::<LoginResponse, AuthError>(AuthError::Internal)
            },
        },
{
    match found {
        Err(_) => Err(AuthError::LookupFailed),
        Ok(None) => Err(AuthError::NotFound),
        Ok(Some(u)) => match verify_password(payload.password.as_str(), u.hashed_password.as_str()) {
            Err(e) => Err(e),
            Ok(false) => Err(AuthError::InvalidCredentials),
            Ok(true) => match mint_token(u.email.as_str(), secret, now) {
                Ok(token) => {
                    proof {
                        lemma_bearer_header_round_trip(token@);
                    }
                    Ok(LoginResponse { token })
                },
                Err(e) => Err(e),
            },
        },
    }
}

/// Resolves the subject of an authenticated request, given what the store
/// holds under it, to the caller's identity. A subject with no account is
/// `Unauthorized`, so that account existence does not leak.
pub fn get_user(found: Result<Option<User>, StoreError>) -> (r: Result<UserResponse, AuthError>)
    ensures
        found is Err ==> r == Err::<UserResponse, AuthError>(AuthError::LookupFailed),
        found matches Ok(None) ==> r == Err::<UserResponse, AuthError>(AuthError::Unauthorized),
        found matches Ok(Some(u)) ==> (r matches Ok(id) && id.username@ == u.username@ && id.email@ == u.email@),
{
    match found {
        Err(_) => Err(AuthError::LookupFailed),
        Ok(None) => Err(AuthError::Unauthorized),
        Ok(Some(u)) => Ok(UserResponse { username: u.username, email: u.email }),
    }
}

} // verus!
