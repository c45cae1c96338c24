//! The bearer token codec: signed, expiring tokens that carry the subject's
//! identity, and the rule by which a request presents one.
//!
//! Signing and signature checking are done by the `jsonwebtoken` crate
//! (HS256 with a server-held secret) and are not verified here; the two
//! private functions that call it say what is taken on trust. Expiry is
//! decided in this module, against a clock reading given by the caller.

use crate::clock;
use crate::error::AuthError;
use crate::lockout::MAX_TIMESTAMP;
use crate::sessions::SESSION_TTL_SECS;
use crate::text::{same_text, skip_chars, starts_with, text_opt, trim, trimmed};
use vstd::prelude::*;

verus! {

/// `jsonwebtoken::errors::Error`, made known so that the two functions
/// that call the crate can hand it on. Nothing is claimed of its values;
/// they are never looked at.
#[verifier::external_type_specification]
#[verifier::external_body]
pub struct ExJwtError(jsonwebtoken::errors::Error);

/// The claims a bearer token carries.
#[derive(Debug)]
pub struct Claims {
    /// The subject: the user's id.
    pub sub: String,
    pub email: String,
    /// Expiry, in seconds since the Unix epoch.
    pub exp: u64,
    /// Time of issue, in seconds since the Unix epoch.
    pub iat: u64,
}

/// The mathematical value of a set of claims.
pub struct ClaimsView {
    pub sub: Seq<char>,
    pub email: Seq<char>,
    pub exp: u64,
    pub iat: u64,
}

impl View for Claims {
    type V = ClaimsView;

    open spec fn view(&self) -> ClaimsView {
        ClaimsView { sub: self.sub@, email: self.email@, exp: self.exp, iat: self.iat }
    }
}

/// The four claims as they are found in a token whose signature holds: each
/// is absent where the token lacks it or gives it with another type.
#[derive(Debug)]
pub struct RawClaims {
    pub sub: Option<String>,
    pub email: Option<String>,
    pub exp: Option<u64>,
    pub iat: Option<u64>,
}

/// The mathematical value of [`RawClaims`].
pub struct RawClaimsView {
    pub sub: Option<Seq<char>>,
    pub email: Option<Seq<char>>,
    pub exp: Option<u64>,
    pub iat: Option<u64>,
}

impl View for RawClaims {
    type V = RawClaimsView;

    open spec fn view(&self) -> RawClaimsView {
        RawClaimsView {
            sub: text_opt(self.sub),
            email: text_opt(self.email),
            exp: self.exp,
            iat: self.iat,
        }
    }
}

/// The token that `jsonwebtoken::encode` makes of four claims under a
/// secret, or `None` where it fails. It depends on these values alone.
pub uninterp spec fn jwt_encoding(
    sub: Seq<char>,
    email: Seq<char>,
    exp: u64,
    iat: u64,
    secret: Seq<char>,
) -> Option<Seq<char>>;

/// What `jsonwebtoken::decode` finds in a token under a secret when expiry
/// is left unchecked: the claims, or `None` where the token is malformed,
/// its signature does not hold, or it has no `exp`. It depends on the token
/// and the secret alone.
pub uninterp spec fn jwt_decoding(token: Seq<char>, secret: Seq<char>) -> Option<RawClaimsView>;

/// `jsonwebtoken::encode` with the default header (HS256) and an HMAC key
/// made of the secret's bytes, on a JSON object of the four claims. The
/// result is the one named by [`jwt_encoding`]; nothing else is claimed.
#[verifier::external_body]
fn jwt_encode(sub: &str, email: &str, exp: u64, iat: u64, secret: &str) -> (r: Result<
    String,
    jsonwebtoken::errors::Error,
>)
    ensures
        jwt_encoding(sub@, email@, exp, iat, secret@) == match r {
            Ok(t) => Some(t@),
            Err(_) => None::<Seq<char>>,
        },
{
    let mut claims = serde_json::Map::new();
    claims.insert("sub".to_owned(), serde_json::Value::from(sub));
    claims.insert("email".to_owned(), serde_json::Value::from(email));
    claims.insert("exp".to_owned(), serde_json::Value::from(exp));
    claims.insert("iat".to_owned(), serde_json::Value::from(iat));
    let key = jsonwebtoken::EncodingKey::from_secret(secret.as_bytes());
    jsonwebtoken::encode(&jsonwebtoken::Header::default(), &claims, &key)
}

/// `jsonwebtoken::decode` with the default validation (HS256, `exp`
/// required) except that the crate does not compare `exp` with its own
/// clock, so that the answer depends on token and secret alone. The four
/// claims are then read off the decoded JSON object. The result is the one
/// named by [`jwt_decoding`]; nothing else is claimed.
#[verifier::external_body]
fn jwt_decode(token: &str, secret: &str) -> (r: Result<RawClaims, jsonwebtoken::errors::Error>)
    ensures
        jwt_decoding(token@, secret@) == match r {
            Ok(c) => Some(c@),
            Err(_) => None::<RawClaimsView>,
        },
{
    let mut validation = jsonwebtoken::Validation::default();
    validation.validate_exp = false;
    let key = jsonwebtoken::DecodingKey::from_secret(secret.as_bytes());
    let data = jsonwebtoken::decode::<serde_json::Value>(token, &key, &validation)?;
    Ok(RawClaims {
        sub: data.claims["sub"].as_str().map(str::to_owned),
        email: data.claims["email"].as_str().map(str::to_owned),
        exp: data.claims["exp"].as_u64(),
        iat: data.claims["iat"].as_u64(),
    })
}

/// The claims in what was decoded: all four are needed.
pub open spec fn spec_claims_from_raw(raw: RawClaimsView) -> Option<ClaimsView> {
    match (raw.sub, raw.email, raw.exp, raw.iat) {
        (Some(sub), Some(email), Some(exp), Some(iat)) => Some(ClaimsView { sub, email, exp, iat }),
        _ => None,
    }
}

/// The claims of a token whose signature holds under the secret, expired or
/// not.
pub open spec fn spec_decode(token: Seq<char>, secret: Seq<char>) -> Option<ClaimsView> {
    match jwt_decoding(token, secret) {
        Some(raw) => spec_claims_from_raw(raw),
        None => None,
    }
}

/// The claims of a token that is accepted at `now`: its signature holds,
/// all claims are there, and its expiry lies ahead.
pub open spec fn spec_verify(token: Seq<char>, secret: Seq<char>, now: u64) -> Option<ClaimsView> {
    match spec_decode(token, secret) {
        Some(c) => if now < c.exp {
            Some(c)
        } else {
            None
        },
        None => None,
    }
}

/// The claims of the token issued at `now` for a user.
pub open spec fn claims_for(user_id: Seq<char>, email: Seq<char>, now: u64) -> ClaimsView {
    ClaimsView { sub: user_id, email, exp: (now + SESSION_TTL_SECS) as u64, iat: now }
}

/// The token that [`issue_at`] hands out, if it hands one out: the encoding
/// of the user's claims, provided the codec reads those claims back.
pub open spec fn spec_issue(user_id: Seq<char>, email: Seq<char>, secret: Seq<char>, now: u64) -> Option<
    Seq<char>,
> {
    match jwt_encoding(user_id, email, (now + SESSION_TTL_SECS) as u64, now, secret) {
        Some(t) => if spec_decode(t, secret) == Some(claims_for(user_id, email, now)) {
            Some(t)
        } else {
            None
        },
        None => None,
    }
}

/// Turns what was decoded into claims: all four must be there, else the
/// token names nobody.
pub fn claims_from_raw(raw: RawClaims) -> (r: Option<Claims>)
    ensures
        match r {
            Some(c) => spec_claims_from_raw(raw@) == Some(c@),
            None => spec_claims_from_raw(raw@) is None,
        },
{
    match (raw.sub, raw.email, raw.exp, raw.iat) {
        (Some(sub), Some(email), Some(exp), Some(iat)) => Some(Claims { sub, email, exp, iat }),
        _ => None,
    }
}

/// Reads the claims of a token whose signature holds under `secret`,
/// without looking at its expiry.
pub fn decode(token: &str, secret: &str) -> (r: Option<Claims>)
    ensures
        match r {
            Some(c) => spec_decode(token@, secret@) == Some(c@),
            None => spec_decode(token@, secret@) is None,
        },
{
    match jwt_decode(token, secret) {
        Ok(raw) => claims_from_raw(raw),
        Err(_) => None,
    }
}

/// Lets decoded claims through at `now`: only while their expiry lies ahead.
pub fn accept_unexpired(claims: Option<Claims>, now: u64) -> (r: Option<Claims>)
    ensures
        r == match claims {
            Some(c) => if now < c.exp {
                Some(c)
            } else {
                None
            },
            None => None,
        },
{
    match claims {
        Some(c) => if now < c.exp {
            Some(c)
        } else {
            None
        },
        None => None,
    }
}

/// Verifies a bearer token at `now`. Fails closed: a malformed token, a
/// signature that does not hold, a missing claim or an expiry that is not
/// ahead all give `None`.
pub fn verify_at(token: &str, secret: &str, now: u64) -> (r: Option<Claims>)
    ensures
        match r {
            Some(c) => spec_verify(token@, secret@, now) == Some(c@),
            None => spec_verify(token@, secret@, now) is None,
        },
{
    accept_unexpired(decode(token, secret), now)
}

/// The value of optional claims.
pub open spec fn claims_opt(o: Option<Claims>) -> Option<ClaimsView> {
    match o {
        Some(c) => Some(c@),
        None => None,
    }
}

/// Verifies a bearer token against the wall clock: claims come back only if
/// the token is accepted at some instant, and they are the claims it is
/// accepted with. A clock that cannot be read accepts nothing.
pub fn verify(token: &str, secret: &str) -> (r: Option<Claims>)
    ensures
        r is None || exists|now: u64|
            now <= MAX_TIMESTAMP && #[trigger] spec_verify(token@, secret@, now) == claims_opt(r),
{
    match clock::now() {
        Some(now) => {
            let r = verify_at(token, secret, now);
            assert(r is Some ==> spec_verify(token@, secret@, now) == claims_opt(r));
            r
        },
        None => None,
    }
}

/// Whether claims read back from a token are the ones it was made of.
pub open spec fn spec_accept_issued(
    token: Option<Seq<char>>,
    read_back: Option<ClaimsView>,
    expected: ClaimsView,
) -> Option<Seq<char>> {
    match token {
        Some(t) => if read_back == Some(expected) {
            Some(t)
        } else {
            None
        },
        None => None,
    }
}

/// Decides whether a freshly signed token may be handed out: it must exist
/// and must read back as the claims of this user with these times, else the
/// failure is `Internal`.
pub fn accept_issued(
    token: Option<String>,
    read_back: Option<Claims>,
    user_id: &str,
    email: &str,
    exp: u64,
    iat: u64,
) -> (r: Result<String, AuthError>)
    ensures
        match spec_accept_issued(
            text_opt(token),
            claims_opt(read_back),
            ClaimsView { sub: user_id@, email: email@, exp, iat },
        ) {
            Some(t) => r matches Ok(out) && out@ == t,
            None => r == Err::<String, AuthError>(AuthError::Internal),
        },
{
    match (token, read_back) {
        (Some(t), Some(c)) => {
            if same_text(c.sub.as_str(), user_id) && same_text(c.email.as_str(), email) && c.exp
                == exp && c.iat == iat {
                Ok(t)
            } else {
                Err(AuthError::Internal)
            }
        },
        _ => Err(AuthError::Internal),
    }
}

/// Issues the bearer token of a user at `now`: subject, address, time of
/// issue, and an expiry one session lifetime later. The token is handed out
/// only if it reads back as these very claims; every other outcome is
/// `Internal`.
pub fn issue_at(user_id: &str, email: &str, secret: &str, now: u64) -> (r: Result<String, AuthError>)
    requires
        now <= MAX_TIMESTAMP,
    ensures
        match spec_issue(user_id@, email@, secret@, now) {
            Some(t) => r matches Ok(token) && token@ == t,
            None => r == Err::<String, AuthError>(AuthError::Internal),
        },
{
    let exp = now + SESSION_TTL_SECS;
    let token = match jwt_encode(user_id, email, exp, now, secret) {
        Ok(t) => t,
        Err(_) => {
            return Err(AuthError::Internal);
        },
    };
    let read_back = decode(token.as_str(), secret);
    accept_issued(Some(token), read_back, user_id, email, exp, now)
}

/// Issues the bearer token of a user against the wall clock and returns it
/// with its expiry: the token issued at some instant, expiring one session
/// lifetime later. `Internal` where the clock or the signer fails.
pub fn issue(user_id: &str, email: &str, secret: &str) -> (r: Result<(String, u64), AuthError>)
    ensures
        match r {
            Ok((token, expires_at)) => exists|now: u64|
                now <= MAX_TIMESTAMP && #[trigger] spec_issue(user_id@, email@, secret@, now)
                    == Some(token@) && expires_at == now + SESSION_TTL_SECS,
            Err(e) => e == AuthError::Internal,
        },
{
    match clock::now() {
        Some(now) => match issue_at(user_id, email, secret, now) {
            Ok(token) => {
                assert(spec_issue(user_id@, email@, secret@, now) == Some(token@));
                Ok((token, now + SESSION_TTL_SECS))
            },
            Err(e) => Err(e),
        },
        None => Err(AuthError::Internal),
    }
}

/// A token that was issued is accepted exactly until its expiry: before it,
/// verification gives the subject it was issued for; from the expiry on it
/// gives nothing.
pub proof fn lemma_issued_token_verifies_until_expiry(
    user_id: Seq<char>,
    email: Seq<char>,
    secret: Seq<char>,
    issued_at: u64,
    now: u64,
)
    requires
        issued_at <= MAX_TIMESTAMP,
        spec_issue(user_id, email, secret, issued_at) is Some,
    ensures
        ({
            let token = spec_issue(user_id, email, secret, issued_at)->0;
            let accepted = spec_verify(token, secret, now);
            &&& now < issued_at + SESSION_TTL_SECS <==> accepted is Some
            &&& accepted matches Some(c) ==> c.sub == user_id && c.email == email
        }),
{
}

/// The text that introduces a bearer token in the `Authorization` header.
pub open spec fn bearer_prefix() -> Seq<char> {
    "Bearer "@
}

/// The text that introduces the bearer token among the cookies.
pub open spec fn cookie_prefix() -> Seq<char> {
    "auth_token="@
}

/// The token in an `Authorization` header, if it presents one.
pub open spec fn spec_bearer(header: Seq<char>) -> Option<Seq<char>> {
    if bearer_prefix().is_prefix_of(header) {
        Some(header.skip(bearer_prefix().len() as int))
    } else {
        None
    }
}

/// The position of the first `;` at or after `from`, or the length of the
/// text where there is none.
pub open spec fn next_separator(s: Seq<char>, from: int) -> int
    decreases s.len() - from,
{
    if from < 0 || from >= s.len() || s[from] == ';' {
        from
    } else {
        next_separator(s, from + 1)
    }
}

/// The token in a `Cookie` header, looking at the cookies from position
/// `from` on: the header is cut at each `;`, each piece is trimmed, and the
/// first piece that begins with the cookie's name gives the token.
pub open spec fn spec_cookie_token_from(s: Seq<char>, from: int) -> Option<Seq<char>>
    decreases s.len() - from,
{
    if from < 0 || from > s.len() {
        None
    } else {
        let end = next_separator(s, from);
        let piece = trimmed(s.subrange(from, end));
        if cookie_prefix().is_prefix_of(piece) {
            Some(piece.skip(cookie_prefix().len() as int))
        } else if end >= s.len() || end < from {
            None
        } else {
            spec_cookie_token_from(s, end + 1)
        }
    }
}

/// The bearer token a request presents: the `Authorization` header comes
/// first; only where it presents none is the cookie looked at.
pub open spec fn spec_extract_token(
    authorization: Option<Seq<char>>,
    cookie: Option<Seq<char>>,
) -> Option<Seq<char>> {
    let from_header = match authorization {
        Some(h) => spec_bearer(h),
        None => None,
    };
    match from_header {
        Some(t) => Some(t),
        None => match cookie {
            Some(c) => spec_cookie_token_from(c, 0),
            None => None,
        },
    }
}

/// A stretch without `;` that ends at a `;` or at the end of the text ends
/// at the next separator.
proof fn lemma_next_separator(s: Seq<char>, from: int, end: int)
    requires
        0 <= from <= end <= s.len(),
        forall|k: int| from <= k < end ==> s[k] != ';',
        end == s.len() || s[end] == ';',
    ensures
        next_separator(s, from) == end,
    decreases end - from,
{
    if from < end {
        lemma_next_separator(s, from + 1, end);
    }
}

/// The token in an `Authorization` header, if it presents one.
pub fn bearer_of(header: &str) -> (r: Option<&str>)
    ensures
        match r {
            Some(t) => spec_bearer(header@) == Some(t@),
            None => spec_bearer(header@) is None,
        },
{
    proof {
        reveal_strlit("Bearer ");
    }
    if starts_with(header, "Bearer ") {
        Some(skip_chars(header, 7))
    } else {
        None
    }
}

/// The token among the cookies of a `Cookie` header, if it is there.
pub fn cookie_token(header: &str) -> (r: Option<&str>)
    ensures
        match r {
            Some(t) => spec_cookie_token_from(header@, 0) == Some(t@),
            None => spec_cookie_token_from(header@, 0) is None,
        },
{
    proof {
        reveal_strlit("auth_token=");
    }
    let n = header.unicode_len();
    let mut start: usize = 0;
    loop
        invariant
            n == header@.len(),
            start <= n,
            spec_cookie_token_from(header@, 0) == spec_cookie_token_from(header@, start as int),
            cookie_prefix().len() == 11,
        decreases n - start,
    {
        let mut end: usize = start;
        while end < n && header.get_char(end) != ';'
            invariant
                n == header@.len(),
                start <= end <= n,
                forall|k: int| start <= k < end ==> header@[k] != ';',
            decreases n - end,
        {
            end += 1;
        }
        proof {
            lemma_next_separator(header@, start as int, end as int);
        }
        let piece = trim(header.substring_char(start, end));
        if starts_with(piece, "auth_token=") {
            return Some(skip_chars(piece, 11));
        }
        if end >= n {
            return None;
        }
        start = end + 1;
    }
}

/// The bearer token a request presents, given its `Authorization` and
/// `Cookie` headers. The header takes priority; the cookie is the fallback.
pub fn extract_token(authorization: Option<&str>, cookie: Option<&str>) -> (r: Option<String>)
    ensures
        text_opt(r) == spec_extract_token(
            match authorization {
                Some(h) => Some(h@),
                None => None,
            },
            match cookie {
                Some(c) => Some(c@),
                None => None,
            },
        ),
{
    if let Some(h) = authorization {
        if let Some(t) = bearer_of(h) {
            return Some(t.to_owned());
        }
    }
    if let Some(c) = cookie {
        if let Some(t) = cookie_token(c) {
            return Some(t.to_owned());
        }
    }
    None
}

} // verus!
