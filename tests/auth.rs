use habit_tracker::account::{get_user, login, register, registration_saved};
use habit_tracker::error::{AuthError, StoreError};
use habit_tracker::gate::{authenticate, extract_bearer};
use habit_tracker::model::{LoginRequest, RegisterRequest, User};
use habit_tracker::password::{hash_password, verify_password};
use habit_tracker::token::{
    decode_jwt, generate_jwt, mint_token, unix_now, validate_token, TOKEN_LIFETIME_SECS,
};

const SECRET: &[u8] = b"unit-test-signing-key";
const T0: u64 = 1_700_000_000;

fn lookup<'a>(store: &'a [User], email: &str) -> Result<Option<User>, StoreError> {
    Ok(store.iter().find(|u| u.email == email).cloned())
}

fn register_into(store: &mut Vec<User>, email: &str, username: &str, password: &str) -> Result<(), AuthError> {
    let req = RegisterRequest {
        username: username.to_string(),
        email: email.to_string(),
        password: password.to_string(),
    };
    let user = register(lookup(store, email), &req)?;
    store.push(user);
    registration_saved(Ok(())).map(|_| ())
}

fn login_req(email: &str, password: &str) -> LoginRequest {
    LoginRequest { email: email.to_string(), password: password.to_string() }
}

#[test]
fn hashed_password_verifies() {
    let d = hash_password("correct horse").unwrap();
    assert!(d.starts_with("$argon2id$"));
    assert_ne!(d, "correct horse");
    assert_eq!(verify_password("correct horse", &d), Ok(true));
}

#[test]
fn other_password_does_not_verify() {
    let d = hash_password("p1").unwrap();
    assert_eq!(verify_password("p2", &d), Ok(false));
    assert_eq!(verify_password("", &d), Ok(false));
}

#[test]
fn hashing_twice_gives_different_digests() {
    let a = hash_password("same").unwrap();
    let b = hash_password("same").unwrap();
    assert_ne!(a, b);
    assert_eq!(verify_password("same", &a), Ok(true));
    assert_eq!(verify_password("same", &b), Ok(true));
}

#[test]
fn empty_password_round_trips() {
    let d = hash_password("").unwrap();
    assert_eq!(verify_password("", &d), Ok(true));
    assert_eq!(verify_password("x", &d), Ok(false));
}

#[test]
fn malformed_digest_is_reported() {
    assert_eq!(verify_password("pw", "not a digest"), Err(AuthError::MalformedDigest));
    assert_eq!(verify_password("pw", ""), Err(AuthError::MalformedDigest));
}

#[test]
fn token_valid_until_expiry() {
    let t = mint_token("a@x.com", SECRET, T0).unwrap();
    assert_eq!(t.matches('.').count(), 2);
    assert_eq!(validate_token(&t, SECRET, T0), Ok("a@x.com".to_string()));
    assert_eq!(validate_token(&t, SECRET, T0 + 3600), Ok("a@x.com".to_string()));
    assert_eq!(validate_token(&t, SECRET, T0 + TOKEN_LIFETIME_SECS - 1), Ok("a@x.com".to_string()));
    assert_eq!(validate_token(&t, SECRET, T0 + TOKEN_LIFETIME_SECS), Err(AuthError::InvalidToken));
    assert_eq!(validate_token(&t, SECRET, T0 + 10 * TOKEN_LIFETIME_SECS), Err(AuthError::InvalidToken));
}

#[test]
fn token_lifetime_is_one_day() {
    assert_eq!(TOKEN_LIFETIME_SECS, 24 * 60 * 60);
}

#[test]
fn minting_is_deterministic() {
    let a = mint_token("a@x.com", SECRET, T0).unwrap();
    let b = mint_token("a@x.com", SECRET, T0).unwrap();
    assert_eq!(a, b);
    let c = mint_token("a@x.com", SECRET, T0 + 1).unwrap();
    assert_ne!(a, c);
}

#[test]
fn mint_refuses_expiry_overflow() {
    assert_eq!(mint_token("a@x.com", SECRET, u64::MAX), Err(AuthError::Internal));
    assert_eq!(mint_token("a@x.com", SECRET, u64::MAX - TOKEN_LIFETIME_SECS + 1), Err(AuthError::Internal));
    assert!(mint_token("a@x.com", SECRET, u64::MAX - TOKEN_LIFETIME_SECS).is_ok());
}

#[test]
fn token_with_other_key_is_invalid() {
    let t = mint_token("a@x.com", SECRET, T0).unwrap();
    assert_eq!(validate_token(&t, b"another-key", T0), Err(AuthError::InvalidToken));
}

#[test]
fn tampered_signature_is_invalid() {
    let t = mint_token("a@x.com", SECRET, T0).unwrap();
    let start = t.rfind('.').unwrap() + 1;
    let bytes = t.as_bytes();
    for i in start..bytes.len() {
        for repl in [b'A', b'z', b'0', b'-', b'_', b'.'] {
            if bytes[i] == repl {
                continue;
            }
            let mut changed = bytes.to_vec();
            changed[i] = repl;
            let changed = String::from_utf8(changed).unwrap();
            assert_eq!(validate_token(&changed, SECRET, T0), Err(AuthError::InvalidToken));
        }
    }
}

#[test]
fn garbage_token_is_invalid() {
    assert_eq!(validate_token("", SECRET, T0), Err(AuthError::InvalidToken));
    assert_eq!(validate_token("abc", SECRET, T0), Err(AuthError::InvalidToken));
    assert_eq!(validate_token("a.b.c", SECRET, T0), Err(AuthError::InvalidToken));
}

#[test]
fn generated_token_decodes_now() {
    let t = generate_jwt("a@x.com", SECRET).unwrap();
    assert_eq!(decode_jwt(&t, SECRET), Ok("a@x.com".to_string()));
    assert_eq!(decode_jwt(&t, b"wrong"), Err(AuthError::InvalidToken));
    let now = unix_now().unwrap();
    assert!(now > T0);
    assert_eq!(validate_token(&t, SECRET, now), Ok("a@x.com".to_string()));
}

#[test]
fn bearer_header_forms() {
    assert_eq!(extract_bearer("Bearer abc.def.ghi"), Some("abc.def.ghi"));
    assert_eq!(extract_bearer("bearer tok"), Some("tok"));
    assert_eq!(extract_bearer("BEARER tok"), Some("tok"));
    assert_eq!(extract_bearer("Bearer "), None);
    assert_eq!(extract_bearer("Bearer"), None);
    assert_eq!(extract_bearer("Basic abc"), None);
    assert_eq!(extract_bearer("Bearer a b"), None);
    assert_eq!(extract_bearer("Bearer  abc"), None);
    assert_eq!(extract_bearer("Bearerabc"), None);
    assert_eq!(extract_bearer(""), None);
}

#[test]
fn second_registration_conflicts() {
    let mut store = Vec::new();
    let first = register_into(&mut store, "a@x.com", "alice", "pw");
    let second = register_into(&mut store, "a@x.com", "bob", "pw2");
    assert_eq!(first, Ok(()));
    assert_eq!(second, Err(AuthError::Conflict));
    assert_eq!(store.len(), 1);
    assert_eq!(store[0].username, "alice");
    assert_eq!(AuthError::Conflict.status(), 409);
}

#[test]
fn registration_record_holds_digest() {
    let req = RegisterRequest {
        username: "alice".to_string(),
        email: "a@x.com".to_string(),
        password: "pw".to_string(),
    };
    let user = register(Ok(None), &req).unwrap();
    assert_eq!(user.id, None);
    assert_eq!(user.username, "alice");
    assert_eq!(user.email, "a@x.com");
    assert_ne!(user.hashed_password, "pw");
    assert_eq!(verify_password("pw", &user.hashed_password), Ok(true));
}

#[test]
fn registration_store_failures() {
    let req = RegisterRequest {
        username: "alice".to_string(),
        email: "a@x.com".to_string(),
        password: "pw".to_string(),
    };
    assert_eq!(register(Err(StoreError::Failed), &req).unwrap_err(), AuthError::LookupFailed);
    assert_eq!(registration_saved(Err(StoreError::Duplicate)).unwrap_err(), AuthError::Conflict);
    assert_eq!(registration_saved(Err(StoreError::Failed)).unwrap_err(), AuthError::SaveFailed);
    assert_eq!(AuthError::SaveFailed.public_message(), "Failed to save user");
    assert_eq!(AuthError::SaveFailed.status(), 500);
    assert_eq!(registration_saved(Ok(())).unwrap().message, "User registered successfully");
}

#[test]
fn login_flows() {
    let mut store = Vec::new();
    register_into(&mut store, "a@x.com", "alice", "pw").unwrap();

    let r = login(lookup(&store, "unknown@x.com"), &login_req("unknown@x.com", "any"), SECRET, T0);
    assert_eq!(r.unwrap_err(), AuthError::NotFound);

    let r = login(lookup(&store, "a@x.com"), &login_req("a@x.com", "wrongpw"), SECRET, T0);
    assert_eq!(r.unwrap_err(), AuthError::InvalidCredentials);

    let token = login(lookup(&store, "a@x.com"), &login_req("a@x.com", "pw"), SECRET, T0).unwrap().token;
    assert_eq!(token, mint_token("a@x.com", SECRET, T0).unwrap());
    let header = format!("Bearer {}", token);
    let subject = authenticate(Some(&header), SECRET, T0 + 60).unwrap();
    assert_eq!(subject, "a@x.com");
    let me = get_user(lookup(&store, &subject)).unwrap();
    assert_eq!(me.username, "alice");
    assert_eq!(me.email, "a@x.com");
}

#[test]
fn login_store_failure_and_bad_digest() {
    let r = login(Err(StoreError::Failed), &login_req("a@x.com", "pw"), SECRET, T0);
    assert_eq!(r.unwrap_err(), AuthError::LookupFailed);
    assert_eq!(AuthError::LookupFailed.public_message(), "Failed to retrieve user");
    assert_eq!(AuthError::LookupFailed.status(), 500);
    let broken = User {
        id: None,
        username: "alice".to_string(),
        email: "a@x.com".to_string(),
        hashed_password: "plain".to_string(),
    };
    let r = login(Ok(Some(broken)), &login_req("a@x.com", "pw"), SECRET, T0);
    assert_eq!(r.unwrap_err(), AuthError::MalformedDigest);
    assert_eq!(AuthError::MalformedDigest.status(), 500);
}

#[test]
fn me_refusals_are_unauthorized() {
    let token = mint_token("a@x.com", SECRET, T0).unwrap();
    let expired_header = format!("Bearer {}", token);
    let cases: Vec<Option<&str>> = vec![
        None,
        Some("Token abc"),
        Some("Bearer"),
        Some(&expired_header),
    ];
    for h in cases {
        let e = authenticate(h, SECRET, T0 + TOKEN_LIFETIME_SECS).unwrap_err();
        assert_eq!(e.status(), 401);
        assert!(["Missing credentials", "Invalid token"].contains(&e.public_message()));
    }
    assert_eq!(AuthError::MissingCredential.public_message(), "Missing credentials");
    assert_eq!(AuthError::InvalidToken.public_message(), "Invalid token");
    assert_eq!(AuthError::Unauthorized.public_message(), "Invalid token");
    assert_eq!(authenticate(None, SECRET, T0), Err(AuthError::MissingCredential));
    assert_eq!(authenticate(Some(&expired_header), SECRET, T0 + TOKEN_LIFETIME_SECS), Err(AuthError::Unauthorized));
}

#[test]
fn stale_subject_is_unauthorized() {
    assert_eq!(get_user(Ok(None)).unwrap_err(), AuthError::Unauthorized);
    assert_eq!(get_user(Err(StoreError::Failed)).unwrap_err(), AuthError::LookupFailed);
    assert_eq!(AuthError::NotFound.status(), 404);
    assert_eq!(AuthError::NotFound.public_message(), "User not found");
    assert_eq!(AuthError::Internal.public_message(), "Internal server error");
    assert_eq!(AuthError::InvalidCredentials.status(), 401);
    assert_eq!(AuthError::InvalidCredentials.public_message(), "Invalid password");
    assert_eq!(AuthError::Conflict.public_message(), "User already exists");
    assert_eq!(AuthError::MalformedDigest.public_message(), "Internal server error");
}

#[test]
fn empty_key_is_refused() {
    assert_eq!(mint_token("a@x.com", b"", T0), Err(AuthError::Internal));
    assert_eq!(generate_jwt("a@x.com", b""), Err(AuthError::Internal));
    let mut store = Vec::new();
    register_into(&mut store, "a@x.com", "alice", "pw").unwrap();
    let r = login(lookup(&store, "a@x.com"), &login_req("a@x.com", "pw"), b"", T0);
    assert_eq!(r.unwrap_err(), AuthError::Internal);
}

#[test]
fn minted_token_has_no_spaces() {
    let t = mint_token("name with spaces@x.com", SECRET, T0).unwrap();
    assert!(!t.is_empty());
    assert!(!t.contains(' '));
    let header = format!("Bearer {}", t);
    assert_eq!(extract_bearer(&header), Some(t.as_str()));
    assert_eq!(
        authenticate(Some(&header), SECRET, T0),
        Ok("name with spaces@x.com".to_string())
    );
}
