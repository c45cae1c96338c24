//! The endpoints that deal with sessions and anti-forgery tokens: logout,
//! the list of the own sessions, their revocation, and the anti-forgery
//! token itself.

use crate::clock;
use crate::credentials::by_id;
use crate::csrf::spec_issue_or_reuse;
use crate::error::AuthError;
use crate::ids::random_uuid;
use crate::lockout::MAX_TIMESTAMP;
use crate::search::first_index;
use crate::service::{spec_authorize, spec_identity, AuthService, AuthState, Credentials, CredentialsView};
use crate::sessions::{spec_list_active, spec_revoke, SelectionView, Session, SessionView};
use crate::token;
use crate::token::spec_extract_token;
use vstd::prelude::*;

verus! {

/// What a logout does: the session of the bearer token that the request
/// presents is revoked. The token is not verified for this, and a request
/// without token changes nothing.
pub open spec fn spec_logout(s: AuthState, creds: CredentialsView) -> AuthState {
    match spec_extract_token(creds.authorization, creds.cookie) {
        Some(t) => AuthState { sessions: spec_revoke(s.sessions, SelectionView::Token(t)), ..s },
        None => s,
    }
}

/// What revoking all own sessions at `now` does and returns. The request
/// must be authorized.
pub open spec fn spec_revoke_all_sessions(s: AuthState, creds: CredentialsView, now: u64) -> (
    AuthState,
    Result<(), AuthError>,
) {
    match spec_authorize(s, creds, now) {
        Err(e) => (s, Err(e)),
        Ok((user_id, _)) => (
            AuthState { sessions: spec_revoke(s.sessions, SelectionView::User(user_id)), ..s },
            Ok(()),
        ),
    }
}

/// What revoking all own sessions by the wall clock may do: nothing, with
/// an `Internal` failure, or what it does at some instant.
pub open spec fn revoke_all_sessions_happened(
    pre: AuthState,
    creds: CredentialsView,
    post: AuthState,
    r: Result<(), AuthError>,
) -> bool {
    ||| post == pre && r == Err::<(), AuthError>(AuthError::Internal)
    ||| exists|now: u64| now <= MAX_TIMESTAMP && #[trigger] spec_revoke_all_sessions(
        pre,
        creds,
        now,
    ) == (post, r)
}

/// The live sessions of the user a request is from at `now`;
/// `Unauthorized` without an accepted bearer token.
pub open spec fn spec_user_sessions(s: AuthState, creds: CredentialsView, now: u64) -> Result<
    Seq<SessionView>,
    AuthError,
> {
    match spec_identity(s.secret, creds, now) {
        None => Err(AuthError::Unauthorized),
        Some((user_id, _)) => Ok(spec_list_active(s.sessions, user_id, now)),
    }
}

/// The value of a list of sessions or an error.
pub open spec fn sessions_result(r: Result<Vec<Session>, AuthError>) -> Result<
    Seq<SessionView>,
    AuthError,
> {
    match r {
        Ok(v) => Ok(v@.map_values(|s: Session| s@)),
        Err(e) => Err(e),
    }
}

/// What asking for an anti-forgery token at `now` does and returns:
/// `Unauthorized` without an accepted bearer token, `NotFound` where the
/// account is gone; else the user's current token with its expiry, or a new
/// one. `Internal`, with nothing changed, where the text of a new token is
/// on record already.
pub open spec fn spec_csrf_token(
    s: AuthState,
    creds: CredentialsView,
    now: u64,
    fresh_id: Seq<char>,
    fresh_token: Seq<char>,
) -> (AuthState, Result<(Seq<char>, u64), AuthError>) {
    match spec_identity(s.secret, creds, now) {
        None => (s, Err(AuthError::Unauthorized)),
        Some((user_id, _)) => if first_index(s.users, by_id(user_id)) is None {
            (s, Err(AuthError::NotFound))
        } else {
            match spec_issue_or_reuse(s.csrf, user_id, now, fresh_id, fresh_token) {
                Ok((tokens, token, expires_at)) => (
                    AuthState { csrf: tokens, ..s },
                    Ok((token, expires_at)),
                ),
                Err(e) => (s, Err(e)),
            }
        },
    }
}

/// The value of an anti-forgery token with its expiry, or an error.
pub open spec fn csrf_result(r: Result<(String, u64), AuthError>) -> Result<
    (Seq<char>, u64),
    AuthError,
> {
    match r {
        Ok((t, e)) => Ok((t@, e)),
        Err(e) => Err(e),
    }
}

/// What asking for an anti-forgery token by the wall clock may do: nothing,
/// with an `Internal` failure, or what it does at some instant with some
/// identifiers.
pub open spec fn csrf_token_happened(
    pre: AuthState,
    creds: CredentialsView,
    post: AuthState,
    r: Result<(Seq<char>, u64), AuthError>,
) -> bool {
    ||| post == pre && r == Err::<(Seq<char>, u64), AuthError>(AuthError::Internal)
    ||| exists|now: u64, fresh_id: Seq<char>, fresh_token: Seq<char>|
        now <= MAX_TIMESTAMP && #[trigger] spec_csrf_token(pre, creds, now, fresh_id, fresh_token)
            == (post, r)
}

impl AuthService {
    /// Logs the sender of a request out: the session of its bearer token is
    /// revoked. A bearer token is optional; without one nothing happens.
    pub fn logout(&mut self, creds: &Credentials)
        requires
            old(self).wf(),
        ensures
            final(self).wf(),
            final(self)@ == spec_logout(old(self)@, creds@),
    {
        match token::extract_token(creds.authorization, creds.cookie) {
            Some(t) => {
                proof {
                    crate::integrity::lemma_revoke_keeps_refs(self@, SelectionView::Token(t@));
                }
                self.sessions.revoke(t.as_str());
            },
            None => {},
        }
    }

    /// The live sessions of the user a request is from at `now`.
    pub fn get_user_sessions_at(&self, creds: &Credentials, now: u64) -> (r: Result<
        Vec<Session>,
        AuthError,
    >)
        ensures
            sessions_result(r) == spec_user_sessions(self@, creds@, now),
    {
        match self.resolve_identity_at(creds, now) {
            None => Err(AuthError::Unauthorized),
            Some((user_id, _)) => Ok(self.sessions.list_active(user_id.as_str(), now)),
        }
    }

    /// The live sessions of the user a request is from, by the wall clock.
    pub fn get_user_sessions(&self, creds: &Credentials) -> (r: Result<Vec<Session>, AuthError>)
        ensures
            r matches Err(AuthError::Internal) || exists|now: u64|
                now <= MAX_TIMESTAMP && #[trigger] spec_user_sessions(self@, creds@, now)
                    == sessions_result(r),
    {
        let now = match clock::now() {
            Some(t) => t,
            None => {
                return Err(AuthError::Internal);
            },
        };
        let r = self.get_user_sessions_at(creds, now);
        assert(spec_user_sessions(self@, creds@, now) == sessions_result(r));
        r
    }

    /// Revokes every session of the user a request is from at `now`.
    pub fn revoke_all_sessions_at(&mut self, creds: &Credentials, now: u64) -> (r: Result<
        (),
        AuthError,
    >)
        requires
            old(self).wf(),
        ensures
            final(self).wf(),
            (final(self)@, r) == spec_revoke_all_sessions(old(self)@, creds@, now),
    {
        let (user_id, _) = match self.authorize_at(creds, now) {
            Ok(pair) => pair,
            Err(e) => {
                return Err(e);
            },
        };
        proof {
            crate::integrity::lemma_revoke_keeps_refs(self@, SelectionView::User(user_id@));
        }
        self.sessions.revoke_all(user_id.as_str());
        Ok(())
    }

    /// Revokes every session of the user a request is from, by the wall
    /// clock.
    pub fn revoke_all_sessions(&mut self, creds: &Credentials) -> (r: Result<(), AuthError>)
        requires
            old(self).wf(),
        ensures
            final(self).wf(),
            revoke_all_sessions_happened(old(self)@, creds@, final(self)@, r),
    {
        let now = match clock::now() {
            Some(t) => t,
            None => {
                return Err(AuthError::Internal);
            },
        };
        let r = self.revoke_all_sessions_at(creds, now);
        assert(spec_revoke_all_sessions(old(self)@, creds@, now) == (self@, r));
        r
    }

    /// Hands the user a request is from an anti-forgery token at `now`,
    /// with its expiry. `fresh_id` and `fresh_token` are used only where a
    /// new token has to be made.
    pub fn get_csrf_token_at(
        &mut self,
        creds: &Credentials,
        now: u64,
        fresh_id: String,
        fresh_token: String,
    ) -> (r: Result<(String, u64), AuthError>)
        requires
            old(self).wf(),
            now <= MAX_TIMESTAMP,
        ensures
            final(self).wf(),
            (final(self)@, csrf_result(r)) == spec_csrf_token(
                old(self)@,
                creds@,
                now,
                fresh_id@,
                fresh_token@,
            ),
    {
        let (user_id, _) = match self.resolve_identity_at(creds, now) {
            Some(pair) => pair,
            None => {
                return Err(AuthError::Unauthorized);
            },
        };
        if self.users.position_by_id(user_id.as_str()).is_none() {
            return Err(AuthError::NotFound);
        }
        proof {
            crate::integrity::lemma_has_user_is_found(self@.users, user_id@);
            if spec_issue_or_reuse(self@.csrf, user_id@, now, fresh_id@, fresh_token@) is Ok {
                crate::integrity::lemma_csrf_issue_keeps_refs(
                    self@,
                    user_id@,
                    now,
                    fresh_id@,
                    fresh_token@,
                );
            }
        }
        match self.csrf.issue_or_reuse(user_id.as_str(), now, fresh_id, fresh_token) {
            Ok((t, e)) => Ok((t, e)),
            Err(e) => Err(e),
        }
    }

    /// Hands the user a request is from an anti-forgery token, by the wall
    /// clock and with identifiers drawn at random.
    pub fn get_csrf_token(&mut self, creds: &Credentials) -> (r: Result<(String, u64), AuthError>)
        requires
            old(self).wf(),
        ensures
            final(self).wf(),
            csrf_token_happened(old(self)@, creds@, final(self)@, csrf_result(r)),
    {
        let now = match clock::now() {
            Some(t) => t,
            None => {
                return Err(AuthError::Internal);
            },
        };
        let fresh_id = random_uuid();
        let fresh_token = random_uuid();
        let ghost id = fresh_id@;
        let ghost tok = fresh_token@;
        let r = self.get_csrf_token_at(creds, now, fresh_id, fresh_token);
        assert(spec_csrf_token(old(self)@, creds@, now, id, tok) == (self@, csrf_result(r)));
        r
    }
}

} // verus!
