use vstd::prelude::*;
use crate::error::AuthError;

verus! {

/// How long a minted token stays valid, in seconds: 24 hours.
pub const TOKEN_LIFETIME_SECS: u64 = 86400;

/// The token that HS256 signing with `secret` gives for the claim set
/// `{sub, exp}` under the default header.
pub uninterp spec fn signed_token(sub: Seq<char>, exp: u64, secret: Seq<u8>) -> Seq<char>;

/// The claim set `(sub, exp)` of `token`, when its signature verifies under
/// `secret` and its payload carries a string `sub` and an integer `exp`;
/// expiry is not looked at here.
pub uninterp spec fn token_claims(token: Seq<char>, secret: Seq<u8>) -> Option<(Seq<char>, u64)>;

/// The position just after the last `.` of `t` (0 when there is none): where
/// the signature segment of a token starts.
pub open spec fn signature_start(t: Seq<char>) -> int
    decreases t.len(),
{
    if t.len() == 0 {
        0
    } else if t.last() == '.' {
        t.len() as int
    } else {
        signature_start(t.drop_last())
    }
}

/// The signature segment starts within the token.
pub proof fn lemma_signature_start_bounds(t: Seq<char>)
    ensures
        0 <= signature_start(t) <= t.len(),
    decreases t.len(),
{
    if t.len() > 0 && t.last() != '.' {
        lemma_signature_start_bounds(t.drop_last());
    }
}

/// What validating `token` at time `now` yields: the subject of a token whose
/// signature verifies and whose expiry lies strictly after `now`, and
/// `InvalidToken` for every other token, whatever the cause.
pub open spec fn token_outcome(token: Seq<char>, secret: Seq<u8>, now: u64) -> Result<Seq<char>, AuthError> {
    match token_claims(token, secret) {
        Some(c) => if now < c.1 {
            Ok(c.0)
        } else {
            Err(AuthError::InvalidToken)
        },
        None => Err(AuthError::InvalidToken),
    }
}

#[verifier::external_type_specification]
#[verifier::external_body]
pub struct ExJwtError(jsonwebtoken::errors::Error);

/// Relies on `jsonwebtoken::encode` with `Header::default()` (HS256) and an
/// HMAC key from `EncodingKey::from_secret`. It fails only when the key's
/// family differs from the header's algorithm or the claims do not
/// serialise, neither of which can happen here. The decoder re-signs the
/// message (header and payload, up to the last `.`) and compares the
/// signature segment as a string, so the token decodes back to its claims,
/// and no other token with the same message part decodes at all. The token
/// is three base64url segments joined by `.`: never empty, never a space.
#[verifier::external_body]
fn jwt_encode(sub: &str, exp: u64, secret: &[u8]) -> (r: Result<String, jsonwebtoken::errors::Error>)
    ensures
        r is Ok,
        r matches Ok(t) ==> t@ == signed_token(sub@, exp, secret@),
        r matches Ok(t) ==> t@.len() > 0 && forall|i: int| 0 <= i < t@.len() ==> t@[i] != ' ',
        r matches Ok(t) ==> token_claims(t@, secret@) == Some((sub@, exp)),
        r matches Ok(t) ==> forall|t2: Seq<char>|
            #![trigger token_claims(t2, secret@)]
            t2 != t@ && t2.len() >= signature_start(t@)
                && t2.subrange(0, signature_start(t@)) == t@.subrange(0, signature_start(t@))
                ==> token_claims(t2, secret@) is None,
{
    let mut claims = serde_json::Map::new();
    claims.insert("sub".to_string(), serde_json::Value::from(sub));
    claims.insert("exp".to_string(), serde_json::Value::from(exp));
    let key = jsonwebtoken::EncodingKey::from_secret(secret);
    jsonwebtoken::encode(&jsonwebtoken::Header::default(), &claims, &key)
}

/// Relies on `jsonwebtoken::decode` with `Validation::new(HS256)` and expiry
/// checking switched off (so the result depends on the token and key alone),
/// reading the claims `sub` as a string and `exp` as an unsigned integer.
#[verifier::external_body]
fn jwt_decode(token: &str, secret: &[u8]) -> (r: Option<(String, u64)>)
    ensures
        match r {
            Some(c) => token_claims(token@, secret@) == Some((c.0@, c.1)),
            None => token_claims(token@, secret@) is None,
        },
{
    let mut validation = jsonwebtoken::Validation::new(jsonwebtoken::Algorithm::HS256);
    validation.validate_exp = false;
    let key = jsonwebtoken::DecodingKey::from_secret(secret);
    let claims = jsonwebtoken::decode::<serde_json::Value>(token, &key, &validation).ok()?.claims;
    Some((claims.get("sub")?.as_str()?.to_string(), claims.get("exp")?.as_u64()?))
}

/// Relies on chrono's `From<SystemTime> for DateTime<Utc>` and `timestamp`:
/// the current time in seconds since the Unix epoch, negative for a clock set
/// before the epoch. Nothing is known of its value.
#[verifier::external_body]
fn utc_timestamp() -> (r: i64) {
    chrono::DateTime::<chrono::Utc>::from(std::time::SystemTime::now()).timestamp()
}

/// The current time in seconds since the Unix epoch, or `None` when the clock
/// reads a time before the epoch.
pub fn unix_now() -> (r: Option<u64>) {
    let t = utc_timestamp();
    if t < 0 {
        None
    } else {
        Some(t as u64)
    }
}

/// Signs a token for `subject` that expires `TOKEN_LIFETIME_SECS` after `now`.
/// It is refused as `Internal` only when the key is empty (no weakly signed
/// token is ever minted) or that expiry does not fit in a `u64`.
/// The token validates to `subject` exactly until its expiry, and changing
/// any character of its signature segment makes it fail to validate.
pub fn mint_token(subject: &str, secret: &[u8], now: u64) -> (r: Result<String, AuthError>)
    ensures
        (secret@.len() == 0 || now > u64::MAX - TOKEN_LIFETIME_SECS) ==> r == Err::<String, AuthError>(AuthError::Internal),
        (secret@.len() > 0 && now <= u64::MAX - TOKEN_LIFETIME_SECS) ==> r is Ok,
        r matches Ok(t) ==> t@ == signed_token(subject@, (now + TOKEN_LIFETIME_SECS) as u64, secret@),
        r matches Ok(t) ==> t@.len() > 0 && forall|i: int| 0 <= i < t@.len() ==> t@[i] != ' ',
        r matches Ok(t) ==> token_claims(t@, secret@) == Some((subject@, (now + TOKEN_LIFETIME_SECS) as u64)),
        r matches Ok(t) ==> forall|at: u64|
            #![trigger token_outcome(t@, secret@, at)]
            token_outcome(t@, secret@, at) == if at < now + TOKEN_LIFETIME_SECS {
                Ok::<Seq<char>, AuthError>(subject@)
            } else {
                Err::<Seq<char>, AuthError>(AuthError::InvalidToken)
            },
        r matches Ok(t) ==> forall|i: int, c: char|
            #![trigger t@.update(i, c)]
            signature_start(t@) <= i < t@.len() && c != t@[i]
                ==> token_claims(t@.update(i, c), secret@) is None,
{
    if secret.len() == 0 || now > u64::MAX - TOKEN_LIFETIME_SECS {
        return Err(AuthError::Internal);
    }
    let exp = now + TOKEN_LIFETIME_SECS;
    match jwt_encode(subject, exp, secret) {
        Ok(t) => {
            proof {
                let ss = signature_start(t@);
                lemma_signature_start_bounds(t@);
                assert forall|i: int, c: char|
                    signature_start(t@) <= i < t@.len() && c != t@[i]
                    implies token_claims(#[trigger] t@.update(i, c), secret@) is None by {
                    let t2 = t@.update(i, c);
                    assert(t2[i] != t@[i]);
                    assert(t2.subrange(0, ss) =~= t@.subrange(0, ss));
                }
            }
            Ok(t)
        },
        Err(_) => Err(AuthError::Internal),
    }
}

/// Validates `token` at time `now`: the subject when the signature verifies
/// under `secret` and `now` is before the expiry, else `InvalidToken`.
pub fn validate_token(token: &str, secret: &[u8], now: u64) -> (r: Result<String, AuthError>)
    ensures
        match r {
            Ok(s) => token_outcome(token@, secret@, now) == Ok::<Seq<char>, AuthError>(s@),
            Err(e) => token_outcome(token@, secret@, now) == Err::<Seq<char>, AuthError>(e),
        },
{
    match jwt_decode(token, secret) {
        Some(c) => if now < c.1 {
            Ok(c.0)
        } else {
            Err(AuthError::InvalidToken)
        },
        None => Err(AuthError::InvalidToken),
    }
}

/// Mints a token for `user_email` at the current time.
pub fn generate_jwt(user_email: &str, secret: &[u8]) -> (r: Result<String, AuthError>)
    ensures
        r matches Ok(t) ==> exists|now: u64|
            #![trigger signed_token(user_email@, (now + TOKEN_LIFETIME_SECS) as u64, secret@)]
            now <= u64::MAX - TOKEN_LIFETIME_SECS
                && t@ == signed_token(user_email@, (now + TOKEN_LIFETIME_SECS) as u64, secret@)
                && token_claims(t@, secret@) == Some((user_email@, (now + TOKEN_LIFETIME_SECS) as u64)),
        secret@.len() == 0 ==> r == Err::<String, AuthError>(AuthError::Internal),
        r matches Err(e) ==> e == AuthError::Internal,
{
    match unix_now() {
        Some(now) => mint_token(user_email, secret, now),
        None => Err(AuthError::Internal),
    }
}

/// Validates `token` at the current time and yields its subject.
pub fn decode_jwt(token: &str, secret: &[u8]) -> (r: Result<String, AuthError>)
    ensures
        r matches Ok(s) ==> exists|now: u64|
            #![trigger token_outcome(token@, secret@, now)]
            token_outcome(token@, secret@, now) == Ok::<Seq<char>, AuthError>(s@),
        r matches Err(e) ==> e == AuthError::InvalidToken || e == AuthError::Internal,
        token_claims(token@, secret@) is None ==> r is Err,
{
    match unix_now() {
        Some(now) => validate_token(token, secret, now),
        None => Err(AuthError::Internal),
    }
}

} // verus!
