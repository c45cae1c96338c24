//! The authentication service: the stores and the server's secret, and one
//! operation per endpoint.
//!
//! An operation comes in up to three forms. The plain form reads the wall
//! clock and draws fresh identifiers itself. The form whose name ends in
//! `_at` takes the clock reading and the identifiers as arguments. Where the
//! hasher or the signer has a say, a third form takes their answers as
//! arguments too (`login_given`, `register_account` and the like): what it
//! does and returns is a function of plain values alone.

use crate::clock;
use crate::credentials::{
    by_email,
    by_id,
    is_locked,
    lemma_record_is_first,
    lock_of,
    new_account,
    password_verdict,
    spec_record_login_failure,
    spec_record_login_success,
    users_wf,
    verify_password,
    AuthUserView,
    CredentialStore,
};
use crate::csrf::{spec_validate, text_of, CsrfTokenManager, CsrfTokenView};
use crate::error::{AuthError, ValidationIssue};
use crate::ids::random_uuid;
use crate::lockout::{is_locked_at, MAX_TIMESTAMP};
use crate::models::{profile_of, AuthResponse, User, UserView};
use crate::onetime::{
    carrying,
    new_one_time_token,
    outlives,
    token_of,
    OneTimeTokenIssuer,
    OneTimeTokenView,
    TokenKind,
};
use crate::search::{distinct_keys, first_index, lemma_first_index_found, lemma_first_index_none};
use crate::sessions::{
    new_session,
    sessions_wf,
    spec_register,
    SessionRegistry,
    SessionView,
    SESSION_TTL_SECS,
};
use crate::text::{str_opt, text_opt};
use crate::token;
use crate::token::spec_extract_token;
use crate::validation::{is_strong_password, is_valid_email, strong_password, valid_email};
use vstd::prelude::*;

verus! {

/// The authentication service.
pub struct AuthService {
    pub users: CredentialStore,
    pub sessions: SessionRegistry,
    pub csrf: CsrfTokenManager,
    pub one_time: OneTimeTokenIssuer,
    /// The secret that bearer tokens are signed with. It comes from the
    /// server's configuration and is never empty.
    pub secret: String,
}

/// The mathematical value of the service: the content of its stores and its
/// secret.
pub struct AuthState {
    pub users: Seq<AuthUserView>,
    pub sessions: Seq<SessionView>,
    pub csrf: Seq<CsrfTokenView>,
    pub one_time: Seq<OneTimeTokenView>,
    pub secret: Seq<char>,
}

impl View for AuthService {
    type V = AuthState;

    open spec fn view(&self) -> AuthState {
        AuthState {
            users: self.users@,
            sessions: self.sessions@,
            csrf: self.csrf@,
            one_time: self.one_time@,
            secret: self.secret@,
        }
    }
}

/// Some account has this id.
pub open spec fn has_user(users: Seq<AuthUserView>, id: Seq<char>) -> bool {
    exists|i: int| 0 <= i < users.len() && (#[trigger] users[i]).id == id
}

/// Every row belongs to an account that exists; `owner` gives the id a row
/// refers to.
pub open spec fn all_owned<T>(
    users: Seq<AuthUserView>,
    rows: Seq<T>,
    owner: spec_fn(T) -> Seq<char>,
) -> bool {
    forall|k: int| 0 <= k < rows.len() ==> has_user(users, owner(#[trigger] rows[k]))
}

/// The account a session refers to.
pub open spec fn session_owner() -> spec_fn(SessionView) -> Seq<char> {
    |s: SessionView| s.user_id
}

/// The account an anti-forgery token refers to.
pub open spec fn csrf_owner() -> spec_fn(CsrfTokenView) -> Seq<char> {
    |t: CsrfTokenView| t.user_id
}

/// The account a single-use token refers to.
pub open spec fn one_time_owner() -> spec_fn(OneTimeTokenView) -> Seq<char> {
    |t: OneTimeTokenView| t.user_id
}

/// Referential integrity of a state.
pub open spec fn refs_ok(s: AuthState) -> bool {
    &&& all_owned(s.users, s.sessions, session_owner())
    &&& all_owned(s.users, s.csrf, csrf_owner())
    &&& all_owned(s.users, s.one_time, one_time_owner())
}

/// The invariant of the service: each store's own, referential integrity,
/// and a secret that is not empty.
pub open spec fn state_wf(s: AuthState) -> bool {
    &&& users_wf(s.users)
    &&& sessions_wf(s.sessions)
    &&& distinct_keys(s.csrf, text_of())
    &&& distinct_keys(s.one_time, token_of())
    &&& refs_ok(s)
    &&& s.secret.len() > 0
}

/// What a request presents to prove who sends it: the `Authorization`
/// header, the `Cookie` header and the `X-CSRF-Token` header, each as
/// received.
pub struct Credentials<'a> {
    pub authorization: Option<&'a str>,
    pub cookie: Option<&'a str>,
    pub csrf: Option<&'a str>,
}

/// The mathematical value of [`Credentials`].
pub struct CredentialsView {
    pub authorization: Option<Seq<char>>,
    pub cookie: Option<Seq<char>>,
    pub csrf: Option<Seq<char>>,
}

impl<'a> View for Credentials<'a> {
    type V = CredentialsView;

    open spec fn view(&self) -> CredentialsView {
        CredentialsView {
            authorization: str_opt(self.authorization),
            cookie: str_opt(self.cookie),
            csrf: str_opt(self.csrf),
        }
    }
}

/// Who a request is from at `now`, with the bearer token that says so: the
/// token is taken from the headers and must be accepted under the secret.
pub open spec fn spec_identity(secret: Seq<char>, creds: CredentialsView, now: u64) -> Option<
    (Seq<char>, Seq<char>),
> {
    match spec_extract_token(creds.authorization, creds.cookie) {
        Some(t) => match token::spec_verify(t, secret, now) {
            Some(c) => Some((c.sub, t)),
            None => None,
        },
        None => None,
    }
}

/// Whether a request that changes state may go ahead at `now`, given who
/// it is from, if anybody, and the anti-forgery header it carries. Nobody:
/// `Unauthorized`. No header, or one that is not a current token of that
/// very user: `Forbidden`.
pub open spec fn spec_authorize_given(
    csrf: Seq<CsrfTokenView>,
    identity: Option<(Seq<char>, Seq<char>)>,
    header: Option<Seq<char>>,
    now: u64,
) -> Result<(Seq<char>, Seq<char>), AuthError> {
    match identity {
        None => Err(AuthError::Unauthorized),
        Some((user_id, bearer)) => match header {
            None => Err(AuthError::Forbidden),
            Some(h) => if spec_validate(csrf, user_id, h, now) {
                Ok((user_id, bearer))
            } else {
                Err(AuthError::Forbidden)
            },
        },
    }
}

/// Whether a request that changes state may go ahead at `now`, and for whom:
/// the sender is the one its bearer token names.
pub open spec fn spec_authorize(s: AuthState, creds: CredentialsView, now: u64) -> Result<
    (Seq<char>, Seq<char>),
    AuthError,
> {
    spec_authorize_given(s.csrf, spec_identity(s.secret, creds, now), creds.csrf, now)
}

/// The value of a pair of texts, if there is one.
pub open spec fn pair_opt(o: Option<(String, String)>) -> Option<(Seq<char>, Seq<char>)> {
    match o {
        Some((a, b)) => Some((a@, b@)),
        None => None,
    }
}

/// The value of a pair of texts or an error.
pub open spec fn pair_result(r: Result<(String, String), AuthError>) -> Result<
    (Seq<char>, Seq<char>),
    AuthError,
> {
    match r {
        Ok((a, b)) => Ok((a@, b@)),
        Err(e) => Err(e),
    }
}

/// What a successful login hands back.
#[derive(Debug)]
pub struct LoginReply {
    pub user: User,
    /// The bearer token.
    pub token: String,
    /// The expiry of the token and of its session, in seconds since the
    /// Unix epoch.
    pub expires_at: u64,
}

/// The mathematical value of a [`LoginReply`].
pub struct LoginReplyView {
    pub user: UserView,
    pub token: Seq<char>,
    pub expires_at: u64,
}

impl View for LoginReply {
    type V = LoginReplyView;

    open spec fn view(&self) -> LoginReplyView {
        LoginReplyView { user: self.user@, token: self.token@, expires_at: self.expires_at }
    }
}

impl LoginReply {
    /// The body of the reply: profile, bearer token and expiry.
    pub fn into_response(self) -> (r: AuthResponse)
        ensures
            r.success,
            r.user == Some(self.user),
            r.token == Some(self.token),
            r.expires_at == Some(self.expires_at),
            r.error is None,
    {
        AuthResponse::with_session(self.user, self.token, self.expires_at)
    }
}

/// The value of a login's result.
pub open spec fn login_view(r: Result<LoginReply, AuthError>) -> Result<LoginReplyView, AuthError> {
    match r {
        Ok(reply) => Ok(reply@),
        Err(e) => Err(e),
    }
}

/// What a successful signup hands back. No bearer token is among it.
#[derive(Debug)]
pub struct SignupReply {
    pub user: User,
    /// The token to send to the new address, for the collaborator that
    /// delivers mail.
    pub verification_token: String,
}

impl SignupReply {
    /// The body of the reply: the profile and no bearer token. The
    /// verification token is for the mail and stays out of the body.
    pub fn into_response(self) -> (r: AuthResponse)
        ensures
            r.success,
            r.user == Some(self.user),
            r.token is None,
            r.expires_at is None,
            r.error is None,
    {
        AuthResponse::with_profile(self.user)
    }
}

/// The mathematical value of a [`SignupReply`].
pub struct SignupReplyView {
    pub user: UserView,
    pub verification_token: Seq<char>,
}

impl View for SignupReply {
    type V = SignupReplyView;

    open spec fn view(&self) -> SignupReplyView {
        SignupReplyView { user: self.user@, verification_token: self.verification_token@ }
    }
}

/// The value of a signup's result.
pub open spec fn signup_view(r: Result<SignupReply, AuthError>) -> Result<
    SignupReplyView,
    AuthError,
> {
    match r {
        Ok(reply) => Ok(reply@),
        Err(e) => Err(e),
    }
}

/// The user a request is from at `now`, without the token that says so.
pub open spec fn spec_identity_user(secret: Seq<char>, creds: CredentialsView, now: u64) -> Option<
    Seq<char>,
> {
    match spec_identity(secret, creds, now) {
        Some((user_id, _)) => Some(user_id),
        None => None,
    }
}

/// The login at `now` on an address, as a function of two more inputs:
/// `verdict`, the hasher's answer about the password, and `bearer`, the
/// token of the account where the signer made one.
///
/// The lock comes first: while it holds, the login is refused with
/// `AccountLocked`, nothing changes, and `verdict` plays no part. An
/// unknown address and a wrong password give the same `Unauthorized`; a
/// wrong password also counts as a failure. A failure of the hasher or of
/// the signer is `Internal` and changes nothing. A success clears the
/// failures and opens a session for the token.
pub open spec fn spec_login_given(
    s: AuthState,
    email: Seq<char>,
    now: u64,
    session_id: Seq<char>,
    verdict: Result<bool, AuthError>,
    bearer: Option<Seq<char>>,
) -> (AuthState, Result<LoginReplyView, AuthError>) {
    if email.len() == 0 {
        (s, Err(AuthError::Validation(ValidationIssue::MissingFields)))
    } else {
        match first_index(s.users, by_email(email)) {
            None => (s, Err(AuthError::Unauthorized)),
            Some(i) => {
                let u = s.users[i];
                if is_locked_at(lock_of(u), now) {
                    (s, Err(AuthError::AccountLocked))
                } else {
                    match verdict {
                        Err(_) => (s, Err(AuthError::Internal)),
                        Ok(false) => (
                            AuthState {
                                users: spec_record_login_failure(s.users, email, now),
                                ..s
                            },
                            Err(AuthError::Unauthorized),
                        ),
                        Ok(true) => match bearer {
                            None => (s, Err(AuthError::Internal)),
                            Some(t) => (
                                AuthState {
                                    users: spec_record_login_success(s.users, u.id, now),
                                    sessions: spec_register(
                                        s.sessions,
                                        new_session(session_id, u.id, t, now),
                                    ),
                                    ..s
                                },
                                Ok(
                                    LoginReplyView {
                                        user: profile_of(u),
                                        token: t,
                                        expires_at: (now + SESSION_TTL_SECS) as u64,
                                    },
                                ),
                            ),
                        },
                    }
                }
            },
        }
    }
}

/// What the hasher says of a password for the account with this address.
pub open spec fn login_verdict(s: AuthState, email: Seq<char>, password: Seq<char>) -> Result<
    bool,
    AuthError,
> {
    match first_index(s.users, by_email(email)) {
        Some(i) => password_verdict(s.users[i].password_hash, password),
        None => Ok(false),
    }
}

/// The bearer token that is signed at `now` for the account with this
/// address, if the signer works.
pub open spec fn login_bearer(s: AuthState, email: Seq<char>, now: u64) -> Option<Seq<char>> {
    match first_index(s.users, by_email(email)) {
        Some(i) => token::spec_issue(s.users[i].id, s.users[i].email, s.secret, now),
        None => None,
    }
}

/// What a login attempt at `now` does and returns: both fields are needed;
/// then it is the login with the hasher's verdict on the password and the
/// token the signer makes.
pub open spec fn spec_login(
    s: AuthState,
    email: Seq<char>,
    password: Seq<char>,
    now: u64,
    session_id: Seq<char>,
) -> (AuthState, Result<LoginReplyView, AuthError>) {
    if email.len() == 0 || password.len() == 0 {
        (s, Err(AuthError::Validation(ValidationIssue::MissingFields)))
    } else {
        spec_login_given(
            s,
            email,
            now,
            session_id,
            login_verdict(s, email, password),
            login_bearer(s, email, now),
        )
    }
}

/// What a login against the wall clock may do: either the clock could not
/// be read and nothing happened, or it is a login at some instant with some
/// session id.
pub open spec fn login_happened(
    pre: AuthState,
    email: Seq<char>,
    password: Seq<char>,
    post: AuthState,
    r: Result<LoginReplyView, AuthError>,
) -> bool {
    ||| post == pre && r == Err::<LoginReplyView, AuthError>(AuthError::Internal)
    ||| exists|now: u64, session_id: Seq<char>|
        now <= MAX_TIMESTAMP && #[trigger] spec_login(pre, email, password, now, session_id) == (
            post,
            r,
        )
}

/// Why a signup is refused before the password is hashed, if it is: a
/// missing field, a malformed address, a weak password, an address that is
/// taken (`Conflict`), or an identifier that is not new (`Internal`).
pub open spec fn signup_rejection(
    s: AuthState,
    email: Seq<char>,
    password: Seq<char>,
    name: Seq<char>,
    user_id: Seq<char>,
    verification_token: Seq<char>,
) -> Option<AuthError> {
    if email.len() == 0 || password.len() == 0 || name.len() == 0 {
        Some(AuthError::Validation(ValidationIssue::MissingFields))
    } else if !valid_email(email) {
        Some(AuthError::Validation(ValidationIssue::InvalidEmail))
    } else if !strong_password(password) {
        Some(AuthError::Validation(ValidationIssue::WeakPassword))
    } else if first_index(s.users, by_email(email)) is Some {
        Some(AuthError::Conflict)
    } else if first_index(s.users, by_id(user_id)) is Some || first_index(
        s.one_time,
        carrying(verification_token),
    ) is Some {
        Some(AuthError::Internal)
    } else {
        None
    }
}

/// The state after a signup that stored `hash` for the new account.
pub open spec fn state_after_signup(
    s: AuthState,
    email: Seq<char>,
    name: Seq<char>,
    hash: Seq<char>,
    now: u64,
    user_id: Seq<char>,
    verification_id: Seq<char>,
    verification_token: Seq<char>,
) -> AuthState {
    AuthState {
        users: s.users.push(new_account(user_id, email, name, hash, now)),
        one_time: s.one_time.filter(outlives(user_id, now)).push(
            new_one_time_token(
                verification_id,
                user_id,
                verification_token,
                TokenKind::EmailVerification,
                Some(email),
                now,
            ),
        ),
        ..s
    }
}

/// What storing a new account at `now` does and returns, given the hash of
/// its password: `Conflict` where the address is taken, `Internal` where
/// the user id or the token text is in use, both with nothing changed;
/// else the account is stored, its verification token is issued, and the
/// reply carries the new profile and that token.
pub open spec fn spec_register_account(
    s: AuthState,
    email: Seq<char>,
    name: Seq<char>,
    password_hash: Seq<char>,
    now: u64,
    user_id: Seq<char>,
    verification_id: Seq<char>,
    verification_token: Seq<char>,
) -> (AuthState, Result<SignupReplyView, AuthError>) {
    if first_index(s.users, by_email(email)) is Some {
        (s, Err(AuthError::Conflict))
    } else if first_index(s.users, by_id(user_id)) is Some || first_index(
        s.one_time,
        carrying(verification_token),
    ) is Some {
        (s, Err(AuthError::Internal))
    } else {
        (
            state_after_signup(
                s,
                email,
                name,
                password_hash,
                now,
                user_id,
                verification_id,
                verification_token,
            ),
            Ok(
                SignupReplyView {
                    user: profile_of(new_account(user_id, email, name, password_hash, now)),
                    verification_token,
                },
            ),
        )
    }
}

/// What a signup at `now` does and returns.
///
/// A refusal by [`signup_rejection`] changes nothing. Otherwise the only
/// failure is `Internal` (the hash function failed), again with nothing
/// changed. A success is the storing of the new account with some hash that
/// is not the password and for which the password is accepted: the reply
/// carries the new profile, unconfirmed, and the verification token for the
/// mail; no bearer token is issued.
pub open spec fn signup_post(
    pre: AuthState,
    email: Seq<char>,
    password: Seq<char>,
    name: Seq<char>,
    now: u64,
    user_id: Seq<char>,
    verification_id: Seq<char>,
    verification_token: Seq<char>,
    post: AuthState,
    r: Result<SignupReplyView, AuthError>,
) -> bool {
    match signup_rejection(pre, email, password, name, user_id, verification_token) {
        Some(e) => r == Err::<SignupReplyView, AuthError>(e) && post == pre,
        None => match r {
            Ok(_) => {
                let hash = post.users.last().password_hash;
                &&& (post, r) == spec_register_account(
                    pre,
                    email,
                    name,
                    hash,
                    now,
                    user_id,
                    verification_id,
                    verification_token,
                )
                &&& hash != password
                &&& password_verdict(hash, password) == Ok::<bool, AuthError>(true)
            },
            Err(e) => e == AuthError::Internal && post == pre,
        },
    }
}

/// What a signup by the wall clock may do: nothing, with an `Internal`
/// failure, or what it does at some instant with some identifiers.
pub open spec fn signup_happened(
    pre: AuthState,
    email: Seq<char>,
    password: Seq<char>,
    name: Seq<char>,
    post: AuthState,
    r: Result<SignupReplyView, AuthError>,
) -> bool {
    ||| post == pre && r == Err::<SignupReplyView, AuthError>(AuthError::Internal)
    ||| exists|
        now: u64,
        user_id: Seq<char>,
        verification_id: Seq<char>,
        verification_token: Seq<char>,
    |
        now <= MAX_TIMESTAMP && #[trigger] signup_post(
            pre,
            email,
            password,
            name,
            now,
            user_id,
            verification_id,
            verification_token,
            post,
            r,
        )
}

/// Keeping what a predicate admits does not bring back a token that was not
/// there.
pub proof fn lemma_filter_keeps_absent(
    tokens: Seq<OneTimeTokenView>,
    p: spec_fn(OneTimeTokenView) -> bool,
    token: Seq<char>,
)
    requires
        first_index(tokens, carrying(token)) is None,
    ensures
        first_index(tokens.filter(p), carrying(token)) is None,
{
    let kept = tokens.filter(p);
    lemma_first_index_found(tokens, carrying(token), 0);
    assert forall|k: int| 0 <= k < kept.len() implies !carrying(token)(#[trigger] kept[k]) by {
        tokens.lemma_filter_contains_rev(p, kept[k]);
        let j = choose|j: int| 0 <= j < tokens.len() && tokens[j] == kept[k];
        assert(!carrying(token)(tokens[j]));
    }
    lemma_first_index_none(kept, carrying(token), 0);
}

impl AuthService {
    /// The invariant of the service.
    pub open spec fn wf(&self) -> bool {
        state_wf(self@)
    }

    /// A service with empty stores. The secret is required: an empty one is
    /// refused with `Internal`, so that a server without configuration does
    /// not start.
    pub fn new(secret: String) -> (r: Result<AuthService, AuthError>)
        ensures
            match r {
                Ok(svc) => svc.wf() && secret@.len() > 0 && svc@ == (AuthState {
                    users: Seq::empty(),
                    sessions: Seq::empty(),
                    csrf: Seq::empty(),
                    one_time: Seq::empty(),
                    secret: secret@,
                }),
                Err(e) => e == AuthError::Internal && secret@.len() == 0,
            },
    {
        if secret.as_str().is_empty() {
            return Err(AuthError::Internal);
        }
        Ok(
            AuthService {
                users: CredentialStore::new(),
                sessions: SessionRegistry::new(),
                csrf: CsrfTokenManager::new(),
                one_time: OneTimeTokenIssuer::new(),
                secret,
            },
        )
    }

    /// Whether the invariant holds of a service put together from records
    /// that came from outside.
    pub fn is_well_formed(&self) -> (r: bool)
        ensures
            r == self.wf(),
    {
        self.users.is_well_formed() && self.sessions.is_well_formed()
            && self.csrf.is_well_formed() && self.one_time.is_well_formed()
            && self.sessions_are_owned() && self.csrf_tokens_are_owned()
            && self.one_time_tokens_are_owned() && !self.secret.as_str().is_empty()
    }

    /// Whether every session belongs to an account that exists.
    pub fn sessions_are_owned(&self) -> (r: bool)
        ensures
            r == all_owned(self@.users, self@.sessions, session_owner()),
    {
        let n = self.sessions.sessions.len();
        let mut k: usize = 0;
        while k < n
            invariant
                n == self.sessions.sessions@.len(),
                k <= n,
                forall|j: int|
                    0 <= j < k ==> has_user(
                        self@.users,
                        session_owner()(#[trigger] self@.sessions[j]),
                    ),
            decreases n - k,
        {
            let found = self.users.position_by_id(self.sessions.sessions[k].user_id.as_str());
            proof {
                crate::integrity::lemma_has_user_is_found(
                    self@.users,
                    self@.sessions[k as int].user_id,
                );
            }
            if found.is_none() {
                assert(!has_user(self@.users, session_owner()(self@.sessions[k as int])));
                return false;
            }
            k += 1;
        }
        true
    }

    /// Whether every anti-forgery token belongs to an account that exists.
    pub fn csrf_tokens_are_owned(&self) -> (r: bool)
        ensures
            r == all_owned(self@.users, self@.csrf, csrf_owner()),
    {
        let n = self.csrf.tokens.len();
        let mut k: usize = 0;
        while k < n
            invariant
                n == self.csrf.tokens@.len(),
                k <= n,
                forall|j: int|
                    0 <= j < k ==> has_user(self@.users, csrf_owner()(#[trigger] self@.csrf[j])),
            decreases n - k,
        {
            let found = self.users.position_by_id(self.csrf.tokens[k].user_id.as_str());
            proof {
                crate::integrity::lemma_has_user_is_found(
                    self@.users,
                    self@.csrf[k as int].user_id,
                );
            }
            if found.is_none() {
                assert(!has_user(self@.users, csrf_owner()(self@.csrf[k as int])));
                return false;
            }
            k += 1;
        }
        true
    }

    /// Whether every single-use token belongs to an account that exists.
    pub fn one_time_tokens_are_owned(&self) -> (r: bool)
        ensures
            r == all_owned(self@.users, self@.one_time, one_time_owner()),
    {
        let n = self.one_time.tokens.len();
        let mut k: usize = 0;
        while k < n
            invariant
                n == self.one_time.tokens@.len(),
                k <= n,
                forall|j: int|
                    0 <= j < k ==> has_user(
                        self@.users,
                        one_time_owner()(#[trigger] self@.one_time[j]),
                    ),
            decreases n - k,
        {
            let found = self.users.position_by_id(self.one_time.tokens[k].user_id.as_str());
            proof {
                crate::integrity::lemma_has_user_is_found(
                    self@.users,
                    self@.one_time[k as int].user_id,
                );
            }
            if found.is_none() {
                assert(!has_user(self@.users, one_time_owner()(self@.one_time[k as int])));
                return false;
            }
            k += 1;
        }
        true
    }

    /// Who a request is from at `now`: the subject of the bearer token it
    /// presents, with that token. `None` where it presents none or the
    /// token is not accepted.
    pub fn resolve_identity_at(&self, creds: &Credentials, now: u64) -> (r: Option<
        (String, String),
    >)
        ensures
            pair_opt(r) == spec_identity(self@.secret, creds@, now),
    {
        match token::extract_token(creds.authorization, creds.cookie) {
            Some(t) => match token::verify_at(t.as_str(), self.secret.as_str(), now) {
                Some(c) => Some((c.sub, t)),
                None => None,
            },
            None => None,
        }
    }

    /// The id of the user a request is from, by the wall clock: nobody, or
    /// the user that the request is from at some instant.
    pub fn get_user_id_from_token(&self, creds: &Credentials) -> (r: Option<String>)
        ensures
            r is None || exists|now: u64|
                now <= MAX_TIMESTAMP && #[trigger] spec_identity_user(self@.secret, creds@, now)
                    == text_opt(r),
    {
        match clock::now() {
            Some(now) => match self.resolve_identity_at(creds, now) {
                Some((user_id, _)) => {
                    assert(spec_identity_user(self@.secret, creds@, now) == Some(user_id@));
                    Some(user_id)
                },
                None => None,
            },
            None => None,
        }
    }

    /// Whether a request that changes state may go ahead at `now`, given
    /// who it is from and the anti-forgery header it carries. On success
    /// the user's id and bearer token come back.
    pub fn authorize_given(
        &self,
        identity: Option<(String, String)>,
        csrf_header: Option<&str>,
        now: u64,
    ) -> (r: Result<(String, String), AuthError>)
        ensures
            pair_result(r) == spec_authorize_given(
                self@.csrf,
                pair_opt(identity),
                str_opt(csrf_header),
                now,
            ),
    {
        match identity {
            None => Err(AuthError::Unauthorized),
            Some((user_id, bearer)) => match csrf_header {
                None => Err(AuthError::Forbidden),
                Some(header) => {
                    if self.csrf.validate(user_id.as_str(), header, now) {
                        Ok((user_id, bearer))
                    } else {
                        Err(AuthError::Forbidden)
                    }
                },
            },
        }
    }

    /// Whether a request that changes state may go ahead at `now`. On
    /// success the user's id and bearer token come back.
    pub fn authorize_at(&self, creds: &Credentials, now: u64) -> (r: Result<
        (String, String),
        AuthError,
    >)
        ensures
            pair_result(r) == spec_authorize(self@, creds@, now),
    {
        self.authorize_given(self.resolve_identity_at(creds, now), creds.csrf, now)
    }

    /// Whether the anti-forgery check of a request passes at `now`: the
    /// request is from a known user and carries a current token of that
    /// user.
    pub fn verify_csrf_token_at(&self, creds: &Credentials, now: u64) -> (r: bool)
        ensures
            r == (spec_authorize(self@, creds@, now) is Ok),
    {
        self.authorize_at(creds, now).is_ok()
    }

    /// The anti-forgery check by the wall clock: it passes only if it passes
    /// at some instant. A clock that cannot be read lets nothing pass.
    pub fn verify_csrf_token(&self, creds: &Credentials) -> (r: bool)
        ensures
            r ==> exists|now: u64|
                now <= MAX_TIMESTAMP && #[trigger] spec_authorize(self@, creds@, now) is Ok,
    {
        match clock::now() {
            Some(now) => {
                let r = self.verify_csrf_token_at(creds, now);
                assert(r ==> spec_authorize(self@, creds@, now) is Ok);
                r
            },
            None => false,
        }
    }

    /// Stores a new account at `now`, given the hash of its password, and
    /// issues its e-mail verification token.
    pub fn register_account(
        &mut self,
        email: &str,
        name: &str,
        password_hash: String,
        now: u64,
        user_id: String,
        verification_id: String,
        verification_token: String,
    ) -> (r: Result<SignupReply, AuthError>)
        requires
            old(self).wf(),
            now <= MAX_TIMESTAMP,
        ensures
            final(self).wf(),
            (final(self)@, signup_view(r)) == spec_register_account(
                old(self)@,
                email@,
                name@,
                password_hash@,
                now,
                user_id@,
                verification_id@,
                verification_token@,
            ),
    {
        proof {
            crate::integrity::lemma_register_account_keeps_refs(
                self@,
                email@,
                name@,
                password_hash@,
                now,
                user_id@,
                verification_id@,
                verification_token@,
            );
        }
        if self.users.position_by_email(email).is_some() {
            return Err(AuthError::Conflict);
        }
        if self.users.position_by_id(user_id.as_str()).is_some() || self.one_time.position_of(
            verification_token.as_str(),
        ).is_some() {
            return Err(AuthError::Internal);
        }
        let token_copy = verification_token.clone();
        let id_copy = user_id.clone();
        let created = self.users.create_with_hash(user_id, email, name, password_hash, now);
        assert(created is Ok);
        proof {
            lemma_filter_keeps_absent(
                old(self)@.one_time,
                outlives(id_copy@, now),
                verification_token@,
            );
        }
        let issued = self.one_time.issue(
            verification_id,
            id_copy.as_str(),
            verification_token,
            TokenKind::EmailVerification,
            Some(email.to_owned()),
            now,
        );
        assert(issued is Ok);
        let last = self.users.len() - 1;
        assert(self.users@[last as int] == new_account(
            id_copy@,
            email@,
            name@,
            password_hash@,
            now,
        ));
        let user = User::from_record(&self.users.users[last]);
        Ok(SignupReply { user, verification_token: token_copy })
    }

    /// Registers an account at `now` and issues its e-mail verification
    /// token.
    pub fn signup_at(
        &mut self,
        email: &str,
        password: &str,
        name: &str,
        now: u64,
        user_id: String,
        verification_id: String,
        verification_token: String,
    ) -> (r: Result<SignupReply, AuthError>)
        requires
            old(self).wf(),
            now <= MAX_TIMESTAMP,
        ensures
            final(self).wf(),
            signup_post(
                old(self)@,
                email@,
                password@,
                name@,
                now,
                user_id@,
                verification_id@,
                verification_token@,
                final(self)@,
                signup_view(r),
            ),
    {
        if email.is_empty() || password.is_empty() || name.is_empty() {
            return Err(AuthError::Validation(ValidationIssue::MissingFields));
        }
        if !is_valid_email(email) {
            return Err(AuthError::Validation(ValidationIssue::InvalidEmail));
        }
        if !is_strong_password(password) {
            return Err(AuthError::Validation(ValidationIssue::WeakPassword));
        }
        if self.users.position_by_email(email).is_some() {
            return Err(AuthError::Conflict);
        }
        if self.users.position_by_id(user_id.as_str()).is_some() || self.one_time.position_of(
            verification_token.as_str(),
        ).is_some() {
            return Err(AuthError::Internal);
        }
        let password_hash = match crate::hasher::hash(password) {
            Ok(h) => h,
            Err(_) => {
                return Err(AuthError::Internal);
            },
        };
        if password_hash.as_str().is_empty() {
            return Err(AuthError::Internal);
        }
        let r = self.register_account(
            email,
            name,
            password_hash,
            now,
            user_id,
            verification_id,
            verification_token,
        );
        proof {
            let stored = new_account(user_id@, email@, name@, password_hash@, now);
            assert(self@.users.last() == stored);
        }
        r
    }

    /// Registers an account by the wall clock, with identifiers drawn at
    /// random.
    pub fn signup(&mut self, email: &str, password: &str, name: &str) -> (r: Result<
        SignupReply,
        AuthError,
    >)
        requires
            old(self).wf(),
        ensures
            final(self).wf(),
            signup_happened(old(self)@, email@, password@, name@, final(self)@, signup_view(r)),
    {
        let now = match clock::now() {
            Some(t) => t,
            None => {
                return Err(AuthError::Internal);
            },
        };
        let user_id = random_uuid();
        let verification_id = random_uuid();
        let verification_token = random_uuid();
        let ghost uid = user_id@;
        let ghost vid = verification_id@;
        let ghost vtok = verification_token@;
        let r = self.signup_at(
            email,
            password,
            name,
            now,
            user_id,
            verification_id,
            verification_token,
        );
        assert(signup_post(
            old(self)@,
            email@,
            password@,
            name@,
            now,
            uid,
            vid,
            vtok,
            self@,
            signup_view(r),
        ));
        r
    }

    /// A login attempt at `now` on an address, given what the hasher said
    /// of the password and the bearer token that was signed for the
    /// account, if one was. A success opens a session under `session_id`.
    pub fn login_given(
        &mut self,
        email: &str,
        now: u64,
        session_id: String,
        verdict: Result<bool, AuthError>,
        bearer: Option<String>,
    ) -> (r: Result<LoginReply, AuthError>)
        requires
            old(self).wf(),
            now <= MAX_TIMESTAMP,
        ensures
            final(self).wf(),
            (final(self)@, login_view(r)) == spec_login_given(
                old(self)@,
                email@,
                now,
                session_id@,
                verdict,
                text_opt(bearer),
            ),
    {
        proof {
            crate::integrity::lemma_login_keeps_refs(
                self@,
                email@,
                now,
                session_id@,
                verdict,
                text_opt(bearer),
            );
        }
        if email.is_empty() {
            return Err(AuthError::Validation(ValidationIssue::MissingFields));
        }
        let i = match self.users.position_by_email(email) {
            Some(i) => i,
            None => {
                return Err(AuthError::Unauthorized);
            },
        };
        if is_locked(&self.users.users[i], now) {
            return Err(AuthError::AccountLocked);
        }
        match verdict {
            Err(_) => {
                return Err(AuthError::Internal);
            },
            Ok(false) => {
                self.users.record_login_failure(email, now);
                return Err(AuthError::Unauthorized);
            },
            Ok(true) => {},
        }
        let bearer = match bearer {
            Some(t) => t,
            None => {
                return Err(AuthError::Internal);
            },
        };
        let user = User::from_record(&self.users.users[i]);
        proof {
            lemma_record_is_first(self@.users, i as int);
        }
        self.users.record_login_success(user.id.as_str(), now);
        self.sessions.create(session_id, user.id.as_str(), bearer.as_str(), now);
        Ok(LoginReply { user, token: bearer, expires_at: now + SESSION_TTL_SECS })
    }

    /// A login attempt at `now`; a success opens a session under
    /// `session_id`. The password is handed to the hasher only once the
    /// account is found and not locked, and a token is signed only once the
    /// password is accepted.
    pub fn login_at(&mut self, email: &str, password: &str, now: u64, session_id: String) -> (r:
        Result<LoginReply, AuthError>)
        requires
            old(self).wf(),
            now <= MAX_TIMESTAMP,
        ensures
            final(self).wf(),
            (final(self)@, login_view(r)) == spec_login(
                old(self)@,
                email@,
                password@,
                now,
                session_id@,
            ),
    {
        if email.is_empty() || password.is_empty() {
            return Err(AuthError::Validation(ValidationIssue::MissingFields));
        }
        let i = match self.users.position_by_email(email) {
            Some(i) => i,
            None => {
                return Err(AuthError::Unauthorized);
            },
        };
        if is_locked(&self.users.users[i], now) {
            return Err(AuthError::AccountLocked);
        }
        let verdict = verify_password(&self.users.users[i], password);
        let bearer = match verdict {
            Ok(true) => match token::issue_at(
                self.users.users[i].id.as_str(),
                self.users.users[i].email.as_str(),
                self.secret.as_str(),
                now,
            ) {
                Ok(t) => Some(t),
                Err(_) => None,
            },
            _ => None,
        };
        self.login_given(email, now, session_id, verdict, bearer)
    }

    /// A login attempt by the wall clock, with a session id drawn at random.
    pub fn login(&mut self, email: &str, password: &str) -> (r: Result<LoginReply, AuthError>)
        requires
            old(self).wf(),
        ensures
            final(self).wf(),
            login_happened(old(self)@, email@, password@, final(self)@, login_view(r)),
    {
        let now = match clock::now() {
            Some(t) => t,
            None => {
                return Err(AuthError::Internal);
            },
        };
        let session_id = random_uuid();
        let ghost sid = session_id@;
        let r = self.login_at(email, password, now, session_id);
        assert(spec_login(old(self)@, email@, password@, now, sid) == (self@, login_view(r)));
        r
    }
}

} // verus!
