use vstd::prelude::*;
use crate::error::{status_of, AuthError};
use crate::token::{token_claims, token_outcome, validate_token};

verus! {

/// The scheme word of a bearer credential, in lower case.
pub open spec fn scheme_lower() -> Seq<char> {
    seq!['b', 'e', 'a', 'r', 'e', 'r']
}

/// The scheme word of a bearer credential, in upper case.
pub open spec fn scheme_upper() -> Seq<char> {
    seq!['B', 'E', 'A', 'R', 'E', 'R']
}

/// `h` starts with the word `Bearer`, each letter in either case.
pub open spec fn has_bearer_scheme(h: Seq<char>) -> bool {
    &&& h.len() >= 6
    &&& forall|i: int| 0 <= i < 6 ==> #[trigger] h[i] == scheme_lower()[i] || h[i] == scheme_upper()[i]
}

/// The token of an authorization header of the form `Bearer <token>`: the
/// scheme, one space, then a non-empty token without spaces.
pub open spec fn bearer_token(h: Seq<char>) -> Option<Seq<char>> {
    if h.len() > 7 && has_bearer_scheme(h) && h[6] == ' '
        && forall|i: int| 7 <= i < h.len() ==> #[trigger] h[i] != ' ' {
        Some(h.subrange(7, h.len() as int))
    } else {
        None
    }
}

/// The authorization header that carries token `t`: `Bearer <t>`.
pub open spec fn bearer_header(t: Seq<char>) -> Seq<char> {
    seq!['B', 'e', 'a', 'r', 'e', 'r', ' '] + t
}

/// A non-empty token without spaces, sent as `Bearer <t>`, is read back as `t`.
pub proof fn lemma_bearer_header_round_trip(t: Seq<char>)
    requires
        t.len() > 0,
        forall|i: int| 0 <= i < t.len() ==> t[i] != ' ',
    ensures
        bearer_token(bearer_header(t)) == Some(t),
{
    let h = bearer_header(t);
    assert(h.subrange(7, h.len() as int) =~= t);
    assert forall|i: int| 7 <= i < h.len() implies #[trigger] h[i] != ' ' by {
        assert(h[i] == t[i - 7]);
    }
    assert(has_bearer_scheme(h));
}

/// What the authorization gate decides for a request carrying `header`.
pub open spec fn gate_outcome(header: Option<Seq<char>>, secret: Seq<u8>, now: u64) -> Result<Seq<char>, AuthError> {
    match header {
        None => Err(AuthError::MissingCredential),
        Some(h) => match bearer_token(h) {
            None => Err(AuthError::MissingCredential),
            Some(t) => match token_outcome(t, secret, now) {
                Ok(s) => Ok(s),
                Err(_) => Err(AuthError::Unauthorized),
            },
        },
    }
}

/// Every refusal of the authorization gate is reported with status 401 and
/// is either `MissingCredential` or `Unauthorized`, whose bodies carry no
/// internal detail: a missing header, one not of the form `Bearer <token>`,
/// and a token with a bad signature, a malformed structure or a past expiry
/// alike.
pub proof fn lemma_gate_refusals_are_unauthorized(header: Option<Seq<char>>, secret: Seq<u8>, now: u64)
    ensures
        gate_outcome(header, secret, now) matches Err(e) ==> status_of(e) == 401,
        gate_outcome(header, secret, now) matches Err(e) ==> e == AuthError::MissingCredential
            || e == AuthError::Unauthorized,
        (header matches Some(h) && bearer_token(h) is None) ==> gate_outcome(header, secret, now)
            == Err::<Seq<char>, AuthError>(AuthError::MissingCredential),
        header is None ==> gate_outcome(header, secret, now) == Err::<Seq<char>, AuthError>(AuthError::MissingCredential),
        (header matches Some(h) && bearer_token(h) matches Some(t) && token_claims(t, secret) matches Some(c)
            && now >= c.1) ==> gate_outcome(header, secret, now) == Err::<Seq<char>, AuthError>(AuthError::Unauthorized),
{
}

/// Extracts the token of a `Bearer <token>` authorization header.
pub fn extract_bearer(header: &str) -> (r: Option<&str>)
    ensures
        match bearer_token(header@) {
            Some(t) => r matches Some(x) && x@ == t,
            None => r is None,
        },
{
    let n = header.unicode_len();
    if n <= 7 {
        return None;
    }
    let lower = "bearer";
    let upper = "BEARER";
    proof {
        reveal_strlit("bearer");
        reveal_strlit("BEARER");
        assert(lower@ == scheme_lower());
        assert(upper@ == scheme_upper());
    }
    let mut i: usize = 0;
    while i < 6
        invariant
            n == header@.len(),
            n > 7,
            i <= 6,
            lower@ == scheme_lower(),
            upper@ == scheme_upper(),
            forall|j: int| 0 <= j < i ==> #[trigger] header@[j] == scheme_lower()[j] || header@[j] == scheme_upper()[j],
        decreases 6 - i,
    {
        let c = header.get_char(i);
        if c != lower.get_char(i) && c != upper.get_char(i) {
            return None;
        }
        i = i + 1;
    }
    if header.get_char(6) != ' ' {
        return None;
    }
    let mut k: usize = 7;
    while k < n
        invariant
            n == header@.len(),
            7 <= k <= n,
            forall|j: int| 7 <= j < k ==> #[trigger] header@[j] != ' ',
        decreases n - k,
    {
        if header.get_char(k) == ' ' {
            return None;
        }
        k = k + 1;
    }
    Some(header.substring_char(7, n))
}

/// The authorization gate: takes the request's authorization header, if any,
/// and yields the subject of a valid bearer token. A missing or garbled header
/// is `MissingCredential`; a token that fails validation, for whatever cause,
/// is `Unauthorized`.
pub fn authenticate(header: Option<&str>, secret: &[u8], now: u64) -> (r: Result<String, AuthError>)
    ensures
        match gate_outcome(
            match header {
                Some(h) => Some(h@),
                None => None,
            },
            secret@,
            now,
        ) {
            Ok(s) => r matches Ok(x) && x@ == s,
            Err(e) => r == Err::<String, AuthError>(e),
        },
{
    match header {
        None => Err(AuthError::MissingCredential),
        Some(h) => match extract_bearer(h) {
            None => Err(AuthError::MissingCredential),
            Some(t) => match validate_token(t, secret, now) {
                Ok(s) => Ok(s),
                Err(_) => Err(AuthError::Unauthorized),
            },
        },
    }
}

} // verus!
