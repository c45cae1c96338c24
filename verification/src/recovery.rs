//! The endpoints that work with single-use tokens: forgotten passwords,
//! password reset, and e-mail verification.
//!
//! None of them tells the caller whether an address is registered, nor why
//! a token was refused.

use crate::clock;
use crate::credentials::{
    by_email,
    by_id,
    password_verdict,
    spec_mark_email_verified,
    spec_set_password_hash,
};
use crate::error::{AuthError, ValidationIssue};
use crate::ids::random_uuid;
use crate::lockout::MAX_TIMESTAMP;
use crate::onetime::{carrying, new_one_time_token, outlives, spec_consume, TokenKind};
use crate::search::{first_index, lemma_first_index_found};
use crate::service::{lemma_filter_keeps_absent, AuthService, AuthState};
use crate::text::text_opt;
use crate::sessions::{spec_revoke, SelectionView};
use crate::validation::{is_strong_password, strong_password};
use vstd::prelude::*;

verus! {

/// The mail that the collaborator who delivers mail is asked to send after
/// a forgotten-password request.
#[derive(Debug)]
pub struct ResetMail {
    pub address: String,
    pub token: String,
}

/// The mathematical value of a [`ResetMail`].
pub struct ResetMailView {
    pub address: Seq<char>,
    pub token: Seq<char>,
}

impl View for ResetMail {
    type V = ResetMailView;

    open spec fn view(&self) -> ResetMailView {
        ResetMailView { address: self.address@, token: self.token@ }
    }
}

/// The value of an optional mail.
pub open spec fn mail_opt(o: Option<ResetMail>) -> Option<ResetMailView> {
    match o {
        Some(m) => Some(m@),
        None => None,
    }
}

/// What a forgotten-password request gives: the reply to the caller, which
/// is always the same, and the mail to send, if there is one.
#[derive(Debug)]
pub struct ForgotPasswordOutcome {
    /// The HTTP status of the reply.
    pub status: u16,
    /// The text of the reply.
    pub message: &'static str,
    /// The mail to hand to the collaborator; no part of the reply.
    pub mail: Option<ResetMail>,
}

/// The one text that answers every forgotten-password request.
pub open spec fn forgot_password_message() -> Seq<char> {
    "If an account with that email exists, a password reset link has been sent"@
}

/// The reply to a forgotten-password request, as status and text. It is
/// written as a function of the state and the address to say that it
/// depends on neither.
pub open spec fn spec_forgot_password_reply(s: AuthState, email: Seq<char>) -> (u16, Seq<char>) {
    (200, forgot_password_message())
}

/// What a forgotten-password request at `now` does besides replying: where
/// the address is registered, a reset token is issued for its account and a
/// mail is due; where it is not, or the token text is in use, nothing
/// happens.
pub open spec fn spec_forgot_password(
    s: AuthState,
    email: Seq<char>,
    now: u64,
    reset_id: Seq<char>,
    reset_token: Seq<char>,
) -> (AuthState, Option<ResetMailView>) {
    match first_index(s.users, by_email(email)) {
        None => (s, None),
        Some(i) => if first_index(s.one_time, carrying(reset_token)) is Some {
            (s, None)
        } else {
            (
                AuthState {
                    one_time: s.one_time.filter(outlives(s.users[i].id, now)).push(
                        new_one_time_token(
                            reset_id,
                            s.users[i].id,
                            reset_token,
                            TokenKind::PasswordReset,
                            None,
                            now,
                        ),
                    ),
                    ..s
                },
                Some(ResetMailView { address: s.users[i].email, token: reset_token }),
            )
        },
    }
}

/// What a forgotten-password request by the wall clock may do: nothing, or
/// what it does at some instant with some identifiers.
pub open spec fn forgot_password_happened(
    pre: AuthState,
    email: Seq<char>,
    post: AuthState,
    mail: Option<ResetMailView>,
) -> bool {
    ||| post == pre && mail is None
    ||| exists|now: u64, reset_id: Seq<char>, reset_token: Seq<char>|
        now <= MAX_TIMESTAMP && #[trigger] spec_forgot_password(
            pre,
            email,
            now,
            reset_id,
            reset_token,
        ) == (post, mail)
}

/// Why a password reset is refused with nothing changed, if it is: a weak
/// new password, or a token that cannot be consumed.
pub open spec fn reset_rejection(
    s: AuthState,
    token: Seq<char>,
    new_password: Seq<char>,
    now: u64,
) -> Option<AuthError> {
    if !strong_password(new_password) {
        Some(AuthError::Validation(ValidationIssue::WeakPassword))
    } else if spec_consume(s.one_time, token, TokenKind::PasswordReset, now).1 is None {
        Some(AuthError::InvalidOrExpiredToken)
    } else {
        None
    }
}

/// What a password reset at `now` with a reset token does and returns,
/// given the hash of the new password, if the hasher made one.
///
/// A token that cannot be consumed, or whose owner is gone, is refused with
/// `InvalidOrExpiredToken`; a missing hash is `Internal`. Every refusal
/// changes nothing. Otherwise the token is consumed, the owner's password
/// hash is replaced, and every session of the owner is revoked.
pub open spec fn spec_reset_password_given(
    s: AuthState,
    token: Seq<char>,
    now: u64,
    new_hash: Option<Seq<char>>,
) -> (AuthState, Result<(), AuthError>) {
    let (tokens, owner) = spec_consume(s.one_time, token, TokenKind::PasswordReset, now);
    match owner {
        None => (s, Err(AuthError::InvalidOrExpiredToken)),
        Some(user_id) => if first_index(s.users, by_id(user_id)) is None {
            (s, Err(AuthError::InvalidOrExpiredToken))
        } else {
            match new_hash {
                None => (s, Err(AuthError::Internal)),
                Some(hash) => (
                    AuthState {
                        one_time: tokens,
                        users: spec_set_password_hash(s.users, user_id, hash, now),
                        sessions: spec_revoke(s.sessions, SelectionView::User(user_id)),
                        ..s
                    },
                    Ok(()),
                ),
            }
        },
    }
}

/// What a password reset at `now` does and returns.
///
/// A refusal by [`reset_rejection`] changes nothing, and neither does any
/// other failure: `Internal` where the hash function failed, and the same
/// `InvalidOrExpiredToken` where the owner is gone. On success the token is
/// consumed, the owner's password hash is replaced by one that is not the
/// password and for which the password is accepted, and every session of
/// the owner is revoked.
pub open spec fn reset_password_post(
    pre: AuthState,
    token: Seq<char>,
    new_password: Seq<char>,
    now: u64,
    post: AuthState,
    r: Result<(), AuthError>,
) -> bool {
    match reset_rejection(pre, token, new_password, now) {
        Some(e) => r == Err::<(), AuthError>(e) && post == pre,
        None => {
            let (tokens, owner) = spec_consume(pre.one_time, token, TokenKind::PasswordReset, now);
            let user_id = owner->0;
            match r {
                Ok(_) => {
                    &&& first_index(pre.users, by_id(user_id)) matches Some(i)
                    &&& (post, r) == spec_reset_password_given(
                        pre,
                        token,
                        now,
                        Some(post.users[i].password_hash),
                    )
                    &&& post.users[i].password_hash != new_password
                    &&& password_verdict(post.users[i].password_hash, new_password) == Ok::<
                        bool,
                        AuthError,
                    >(true)
                },
                Err(e) => {
                    &&& post == pre
                    &&& e == if first_index(pre.users, by_id(user_id)) is None {
                        AuthError::InvalidOrExpiredToken
                    } else {
                        AuthError::Internal
                    }
                },
            }
        },
    }
}

/// What a password reset by the wall clock may do: nothing, with an
/// `Internal` failure, or what it does at some instant.
pub open spec fn reset_password_happened(
    pre: AuthState,
    token: Seq<char>,
    new_password: Seq<char>,
    post: AuthState,
    r: Result<(), AuthError>,
) -> bool {
    ||| post == pre && r == Err::<(), AuthError>(AuthError::Internal)
    ||| exists|now: u64|
        now <= MAX_TIMESTAMP && #[trigger] reset_password_post(
            pre,
            token,
            new_password,
            now,
            post,
            r,
        )
}

/// What an e-mail verification at `now` does and returns: a usable token is
/// consumed and its owner's address is marked as confirmed; every other
/// token is refused with `InvalidOrExpiredToken` and nothing changes. The
/// same refusal is given where the owner is gone.
pub open spec fn spec_verify_email(s: AuthState, token: Seq<char>, now: u64) -> (
    AuthState,
    Result<(), AuthError>,
) {
    let (tokens, owner) = spec_consume(s.one_time, token, TokenKind::EmailVerification, now);
    match owner {
        None => (s, Err(AuthError::InvalidOrExpiredToken)),
        Some(user_id) => (
            AuthState {
                one_time: tokens,
                users: spec_mark_email_verified(s.users, user_id, now),
                ..s
            },
            if first_index(s.users, by_id(user_id)) is Some {
                Ok(())
            } else {
                Err(AuthError::InvalidOrExpiredToken)
            },
        ),
    }
}

/// What an e-mail verification by the wall clock may do: nothing, with an
/// `Internal` failure, or what it does at some instant.
pub open spec fn verify_email_happened(
    pre: AuthState,
    token: Seq<char>,
    post: AuthState,
    r: Result<(), AuthError>,
) -> bool {
    ||| post == pre && r == Err::<(), AuthError>(AuthError::Internal)
    ||| exists|now: u64| now <= MAX_TIMESTAMP && #[trigger] spec_verify_email(pre, token, now) == (
        post,
        r,
    )
}

impl AuthService {
    /// Answers a forgotten-password request at `now`. The reply is one and
    /// the same for every address and every state; a reset token is issued,
    /// and a mail is due, only where the address is registered.
    pub fn forgot_password_at(
        &mut self,
        email: &str,
        now: u64,
        reset_id: String,
        reset_token: String,
    ) -> (r: ForgotPasswordOutcome)
        requires
            old(self).wf(),
            now <= MAX_TIMESTAMP,
        ensures
            final(self).wf(),
            (r.status, r.message@) == spec_forgot_password_reply(old(self)@, email@),
            (final(self)@, mail_opt(r.mail)) == spec_forgot_password(
                old(self)@,
                email@,
                now,
                reset_id@,
                reset_token@,
            ),
    {
        proof {
            crate::integrity::lemma_forgot_password_keeps_refs(
                self@,
                email@,
                now,
                reset_id@,
                reset_token@,
            );
        }
        let message = "If an account with that email exists, a password reset link has been sent";
        let found = match self.users.find_by_email(email) {
            Some(u) => Some((u.id.clone(), u.email.clone())),
            None => None,
        };
        let (user_id, address) = match found {
            Some(pair) => pair,
            None => {
                return ForgotPasswordOutcome { status: 200, message, mail: None };
            },
        };
        if self.one_time.position_of(reset_token.as_str()).is_some() {
            return ForgotPasswordOutcome { status: 200, message, mail: None };
        }
        proof {
            lemma_filter_keeps_absent(old(self)@.one_time, outlives(user_id@, now), reset_token@);
        }
        let token_copy = reset_token.clone();
        let issued = self.one_time.issue(
            reset_id,
            user_id.as_str(),
            reset_token,
            TokenKind::PasswordReset,
            None,
            now,
        );
        assert(issued is Ok);
        ForgotPasswordOutcome {
            status: 200,
            message,
            mail: Some(ResetMail { address, token: token_copy }),
        }
    }

    /// Answers a forgotten-password request by the wall clock, with
    /// identifiers drawn at random. The reply is the same whatever happens.
    pub fn forgot_password(&mut self, email: &str) -> (r: ForgotPasswordOutcome)
        requires
            old(self).wf(),
        ensures
            final(self).wf(),
            (r.status, r.message@) == spec_forgot_password_reply(old(self)@, email@),
            forgot_password_happened(old(self)@, email@, final(self)@, mail_opt(r.mail)),
    {
        let now = match clock::now() {
            Some(t) => t,
            None => {
                return ForgotPasswordOutcome {
                    status: 200,
                    message:
                        "If an account with that email exists, a password reset link has been sent",
                    mail: None,
                };
            },
        };
        let reset_id = random_uuid();
        let reset_token = random_uuid();
        let ghost id = reset_id@;
        let ghost tok = reset_token@;
        let r = self.forgot_password_at(email, now, reset_id, reset_token);
        assert(spec_forgot_password(old(self)@, email@, now, id, tok) == (self@, mail_opt(r.mail)));
        r
    }

    /// Resets a password at `now` with a reset token, given the hash of the
    /// new password, if the hasher made one.
    pub fn reset_password_given(&mut self, token: &str, now: u64, new_hash: Option<String>) -> (r:
        Result<(), AuthError>)
        requires
            old(self).wf(),
        ensures
            final(self).wf(),
            (final(self)@, r) == spec_reset_password_given(
                old(self)@,
                token@,
                now,
                text_opt(new_hash),
            ),
    {
        proof {
            crate::integrity::lemma_reset_password_keeps_refs(
                self@,
                token@,
                now,
                text_opt(new_hash),
            );
        }
        let user_id = match self.one_time.owner_of_usable(token, TokenKind::PasswordReset, now) {
            Some(id) => id,
            None => {
                return Err(AuthError::InvalidOrExpiredToken);
            },
        };
        if self.users.position_by_id(user_id.as_str()).is_none() {
            return Err(AuthError::InvalidOrExpiredToken);
        }
        let hash = match new_hash {
            Some(h) => h,
            None => {
                return Err(AuthError::Internal);
            },
        };
        self.one_time.consume(token, TokenKind::PasswordReset, now);
        self.users.set_password_hash(user_id.as_str(), hash, now);
        self.sessions.revoke_all(user_id.as_str());
        Ok(())
    }

    /// Resets a password at `now` with a reset token. The new password is
    /// hashed only once the token is known to be good.
    pub fn reset_password_at(&mut self, token: &str, new_password: &str, now: u64) -> (r: Result<
        (),
        AuthError,
    >)
        requires
            old(self).wf(),
        ensures
            final(self).wf(),
            reset_password_post(old(self)@, token@, new_password@, now, final(self)@, r),
    {
        if !is_strong_password(new_password) {
            return Err(AuthError::Validation(ValidationIssue::WeakPassword));
        }
        let user_id = match self.one_time.owner_of_usable(token, TokenKind::PasswordReset, now) {
            Some(id) => id,
            None => {
                return Err(AuthError::InvalidOrExpiredToken);
            },
        };
        if self.users.position_by_id(user_id.as_str()).is_none() {
            return Err(AuthError::InvalidOrExpiredToken);
        }
        let hash = match crate::hasher::hash(new_password) {
            Ok(h) => h,
            Err(_) => {
                return Err(AuthError::Internal);
            },
        };
        if hash.as_str().is_empty() {
            return Err(AuthError::Internal);
        }
        proof {
            lemma_first_index_found(self@.users, by_id(user_id@), 0);
        }
        self.reset_password_given(token, now, Some(hash))
    }

    /// Resets a password by the wall clock.
    pub fn reset_password(&mut self, token: &str, new_password: &str) -> (r: Result<(), AuthError>)
        requires
            old(self).wf(),
        ensures
            final(self).wf(),
            reset_password_happened(old(self)@, token@, new_password@, final(self)@, r),
    {
        let now = match clock::now() {
            Some(t) => t,
            None => {
                return Err(AuthError::Internal);
            },
        };
        let r = self.reset_password_at(token, new_password, now);
        assert(reset_password_post(old(self)@, token@, new_password@, now, self@, r));
        r
    }

    /// Confirms an address at `now` with a verification token.
    pub fn verify_email_at(&mut self, token: &str, now: u64) -> (r: Result<(), AuthError>)
        requires
            old(self).wf(),
        ensures
            final(self).wf(),
            (final(self)@, r) == spec_verify_email(old(self)@, token@, now),
    {
        proof {
            crate::integrity::lemma_verify_email_keeps_refs(self@, token@, now);
        }
        let user_id = match self.one_time.consume(token, TokenKind::EmailVerification, now) {
            Some(id) => id,
            None => {
                return Err(AuthError::InvalidOrExpiredToken);
            },
        };
        if self.users.mark_email_verified(user_id.as_str(), now) {
            Ok(())
        } else {
            Err(AuthError::InvalidOrExpiredToken)
        }
    }

    /// Confirms an address by the wall clock.
    pub fn verify_email(&mut self, token: &str) -> (r: Result<(), AuthError>)
        requires
            old(self).wf(),
        ensures
            final(self).wf(),
            verify_email_happened(old(self)@, token@, final(self)@, r),
    {
        let now = match clock::now() {
            Some(t) => t,
            None => {
                return Err(AuthError::Internal);
            },
        };
        let r = self.verify_email_at(token, now);
        assert(spec_verify_email(old(self)@, token@, now) == (self@, r));
        r
    }
}

/// The reply to a forgotten-password request tells nothing about the
/// address: for any two states and any two addresses, registered or not,
/// status and text are the same.
pub proof fn lemma_forgot_password_reply_is_uniform(
    first: AuthState,
    first_email: Seq<char>,
    second: AuthState,
    second_email: Seq<char>,
)
    ensures
        spec_forgot_password_reply(first, first_email) == spec_forgot_password_reply(
            second,
            second_email,
        ),
{
}

} // verus!
