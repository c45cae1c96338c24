//! The endpoints of a signed-in user: the own profile, a change of
//! password, a change of profile, deletion of the account, and sign-in
//! through a social identity provider.

use crate::clock;
use crate::credentials::{
    by_email,
    by_id,
    new_social_account,
    password_verdict,
    spec_remove,
    spec_set_password_hash,
    spec_update_profile,
    verify_password,
    AuthUserView,
};
use crate::csrf::not_of;
use crate::error::{AuthError, ValidationIssue};
use crate::ids::random_uuid;
use crate::lockout::MAX_TIMESTAMP;
use crate::models::{profile_of, User, UserView};
use crate::onetime::not_owned_by;
use crate::search::{first_index, lemma_first_index_found};
use crate::service::{
    login_view,
    spec_authorize,
    spec_identity,
    AuthService,
    AuthState,
    Credentials,
    CredentialsView,
    LoginReply,
    LoginReplyView,
};
use crate::sessions::{
    new_session,
    spec_register,
    spec_revoke,
    spec_without_user,
    SelectionView,
    SESSION_TTL_SECS,
};
use crate::text::{is_blank, is_blank_text, str_opt, text_opt};
use crate::token;
use crate::validation::{is_strong_password, is_valid_email, strong_password, valid_email};
use vstd::prelude::*;

verus! {

/// The value of a profile or an error.
pub open spec fn user_result(r: Result<User, AuthError>) -> Result<UserView, AuthError> {
    match r {
        Ok(u) => Ok(u@),
        Err(e) => Err(e),
    }
}

/// The profile of the account `user_id`; `NotFound` where it is gone.
pub open spec fn spec_profile(s: AuthState, user_id: Seq<char>) -> Result<UserView, AuthError> {
    match first_index(s.users, by_id(user_id)) {
        Some(i) => Ok(profile_of(s.users[i])),
        None => Err(AuthError::NotFound),
    }
}

/// The own profile of the user a request is from at `now`: `Unauthorized`
/// without an accepted bearer token, `NotFound` where the account is gone.
pub open spec fn spec_current_user(s: AuthState, creds: CredentialsView, now: u64) -> Result<
    UserView,
    AuthError,
> {
    match spec_identity(s.secret, creds, now) {
        None => Err(AuthError::Unauthorized),
        Some((user_id, _)) => spec_profile(s, user_id),
    }
}

/// What a change of password at `now` does and returns for the user
/// `user_id`, whose request came with the token `bearer`, given what the
/// hasher said of the current password (`verdict`) and the hash of the new
/// one, if the hasher made one.
///
/// `NotFound` where the account is gone; `Internal` where the hasher failed
/// on either password; `WrongCurrentPassword` where the current password
/// was not accepted. Every refusal changes nothing. Otherwise the stored
/// hash is replaced and every session of the user is revoked but the one
/// that carries `bearer`.
pub open spec fn spec_change_password_given(
    s: AuthState,
    user_id: Seq<char>,
    bearer: Seq<char>,
    verdict: Result<bool, AuthError>,
    new_hash: Option<Seq<char>>,
    now: u64,
) -> (AuthState, Result<(), AuthError>) {
    if first_index(s.users, by_id(user_id)) is None {
        (s, Err(AuthError::NotFound))
    } else {
        match verdict {
            Err(_) => (s, Err(AuthError::Internal)),
            Ok(false) => (s, Err(AuthError::Validation(ValidationIssue::WrongCurrentPassword))),
            Ok(true) => match new_hash {
                None => (s, Err(AuthError::Internal)),
                Some(hash) => (
                    AuthState {
                        users: spec_set_password_hash(s.users, user_id, hash, now),
                        sessions: spec_revoke(
                            s.sessions,
                            SelectionView::UserExcept(user_id, bearer),
                        ),
                        ..s
                    },
                    Ok(()),
                ),
            },
        }
    }
}

/// Why a change of password is refused with nothing changed, if the reason
/// can be told before the new password is hashed: the request is not
/// authorized, the new password is weak, the account is gone, the hash
/// function fails on the current password, or the current password is
/// wrong.
pub open spec fn change_password_rejection(
    s: AuthState,
    creds: CredentialsView,
    current: Seq<char>,
    new_password: Seq<char>,
    now: u64,
) -> Option<AuthError> {
    match spec_authorize(s, creds, now) {
        Err(e) => Some(e),
        Ok((user_id, _)) => if !strong_password(new_password) {
            Some(AuthError::Validation(ValidationIssue::WeakPassword))
        } else {
            match first_index(s.users, by_id(user_id)) {
                None => Some(AuthError::NotFound),
                Some(i) => match password_verdict(s.users[i].password_hash, current) {
                    Err(_) => Some(AuthError::Internal),
                    Ok(false) => Some(AuthError::Validation(ValidationIssue::WrongCurrentPassword)),
                    Ok(true) => None,
                },
            }
        },
    }
}

/// What a change of password at `now` does and returns.
///
/// A refusal by [`change_password_rejection`] changes nothing. Otherwise
/// the only failure is `Internal` (the hash function failed), again with
/// nothing changed. On success the stored hash is replaced by one that is
/// not the new password and for which the new password is accepted, and
/// every session of the user is revoked but the one the request came with.
pub open spec fn change_password_post(
    pre: AuthState,
    creds: CredentialsView,
    current: Seq<char>,
    new_password: Seq<char>,
    now: u64,
    post: AuthState,
    r: Result<(), AuthError>,
) -> bool {
    match change_password_rejection(pre, creds, current, new_password, now) {
        Some(e) => r == Err::<(), AuthError>(e) && post == pre,
        None => match r {
            Err(e) => e == AuthError::Internal && post == pre,
            Ok(_) => {
                let (user_id, bearer) = spec_authorize(pre, creds, now)->Ok_0;
                let i = first_index(pre.users, by_id(user_id))->0;
                let hash = post.users[i].password_hash;
                &&& (post, r) == spec_change_password_given(
                    pre,
                    user_id,
                    bearer,
                    Ok(true),
                    Some(hash),
                    now,
                )
                &&& hash != new_password
                &&& password_verdict(hash, new_password) == Ok::<bool, AuthError>(true)
            },
        },
    }
}

/// What a change of password by the wall clock may do: nothing, with an
/// `Internal` failure, or what it does at some instant.
pub open spec fn change_password_happened(
    pre: AuthState,
    creds: CredentialsView,
    current: Seq<char>,
    new_password: Seq<char>,
    post: AuthState,
    r: Result<(), AuthError>,
) -> bool {
    ||| post == pre && r == Err::<(), AuthError>(AuthError::Internal)
    ||| exists|now: u64|
        now <= MAX_TIMESTAMP && #[trigger] change_password_post(
            pre,
            creds,
            current,
            new_password,
            now,
            post,
            r,
        )
}

/// The name a profile update takes over: one that is given and not blank.
pub open spec fn effective_name(name: Option<Seq<char>>) -> Option<Seq<char>> {
    match name {
        Some(n) => if is_blank(n) {
            None
        } else {
            Some(n)
        },
        None => None,
    }
}

/// The address a profile update takes over: one that is given, not blank,
/// and well-formed.
pub open spec fn effective_email(email: Option<Seq<char>>) -> Option<Seq<char>> {
    match email {
        Some(e) => if is_blank(e) || !valid_email(e) {
            None
        } else {
            Some(e)
        },
        None => None,
    }
}

/// What a profile update at `now` does and returns for the user `user_id`,
/// given the name and the address to take over, if any. An address that is
/// on record gives `Conflict`; an update of nothing gives `NoUpdates`; an
/// account that is gone gives `NotFound`. A new address is stored as
/// unconfirmed. Every refusal changes nothing.
pub open spec fn spec_apply_profile_update(
    s: AuthState,
    user_id: Seq<char>,
    name: Option<Seq<char>>,
    email: Option<Seq<char>>,
    now: u64,
) -> (AuthState, Result<(), AuthError>) {
    if email matches Some(e) && first_index(s.users, by_email(e)) is Some {
        (s, Err(AuthError::Conflict))
    } else if name is None && email is None {
        (s, Err(AuthError::Validation(ValidationIssue::NoUpdates)))
    } else {
        match spec_update_profile(s.users, user_id, name, email, now) {
            Ok(users) => (AuthState { users, ..s }, Ok(())),
            Err(e) => (s, Err(e)),
        }
    }
}

/// What a profile update at `now` does and returns. The request must be
/// authorized. A name is taken over if it is given and not blank, an
/// address if it is given, not blank and well-formed.
pub open spec fn spec_update_profile_request(
    s: AuthState,
    creds: CredentialsView,
    name: Option<Seq<char>>,
    email: Option<Seq<char>>,
    now: u64,
) -> (AuthState, Result<(), AuthError>) {
    match spec_authorize(s, creds, now) {
        Err(e) => (s, Err(e)),
        Ok((user_id, _)) => spec_apply_profile_update(
            s,
            user_id,
            effective_name(name),
            effective_email(email),
            now,
        ),
    }
}

/// What a profile update by the wall clock may do: nothing, with an
/// `Internal` failure, or what it does at some instant.
pub open spec fn update_profile_happened(
    pre: AuthState,
    creds: CredentialsView,
    name: Option<Seq<char>>,
    email: Option<Seq<char>>,
    post: AuthState,
    r: Result<(), AuthError>,
) -> bool {
    ||| post == pre && r == Err::<(), AuthError>(AuthError::Internal)
    ||| exists|now: u64|
        now <= MAX_TIMESTAMP && #[trigger] spec_update_profile_request(
            pre,
            creds,
            name,
            email,
            now,
        ) == (post, r)
}

/// The state without the account `user_id`: the account goes, and with it
/// its sessions, its anti-forgery tokens and its single-use tokens.
pub open spec fn spec_remove_account(s: AuthState, user_id: Seq<char>) -> AuthState {
    AuthState {
        users: spec_remove(s.users, user_id),
        sessions: spec_without_user(s.sessions, user_id),
        csrf: s.csrf.filter(not_of(user_id)),
        one_time: s.one_time.filter(not_owned_by(user_id)),
        ..s
    }
}

/// What deleting the own account at `now` does and returns. The request
/// must be authorized.
pub open spec fn spec_delete_account(s: AuthState, creds: CredentialsView, now: u64) -> (
    AuthState,
    Result<(), AuthError>,
) {
    match spec_authorize(s, creds, now) {
        Err(e) => (s, Err(e)),
        Ok((user_id, _)) => (spec_remove_account(s, user_id), Ok(())),
    }
}

/// What deleting the own account by the wall clock may do: nothing, with an
/// `Internal` failure, or what it does at some instant.
pub open spec fn delete_account_happened(
    pre: AuthState,
    creds: CredentialsView,
    post: AuthState,
    r: Result<(), AuthError>,
) -> bool {
    ||| post == pre && r == Err::<(), AuthError>(AuthError::Internal)
    ||| exists|now: u64| now <= MAX_TIMESTAMP && #[trigger] spec_delete_account(pre, creds, now)
        == (post, r)
}

/// The account that a social sign-in is for: the one with the profile's
/// address, or a new one without password.
pub open spec fn social_account(
    s: AuthState,
    email: Seq<char>,
    name: Seq<char>,
    avatar: Option<Seq<char>>,
    now: u64,
    user_id: Seq<char>,
) -> AuthUserView {
    match first_index(s.users, by_email(email)) {
        Some(i) => s.users[i],
        None => new_social_account(user_id, email, name, avatar, now),
    }
}

/// What a sign-in through a social identity provider at `now` does and
/// returns, given the profile the provider vouches for and the bearer token
/// that was signed for the account, if one was.
///
/// The account with the profile's address signs in; where there is none, an
/// account without password is created first, its address taken as
/// confirmed. Then a session is opened for the token. An empty address is
/// refused; an id that is in use, or a missing token, gives `Internal`.
/// Every refusal changes nothing.
pub open spec fn spec_social_login_given(
    s: AuthState,
    email: Seq<char>,
    name: Seq<char>,
    avatar: Option<Seq<char>>,
    now: u64,
    user_id: Seq<char>,
    session_id: Seq<char>,
    bearer: Option<Seq<char>>,
) -> (AuthState, Result<LoginReplyView, AuthError>) {
    if email.len() == 0 {
        (s, Err(AuthError::Validation(ValidationIssue::MissingFields)))
    } else {
        let existing = first_index(s.users, by_email(email));
        if existing is None && first_index(s.users, by_id(user_id)) is Some {
            (s, Err(AuthError::Internal))
        } else {
            let u = social_account(s, email, name, avatar, now, user_id);
            match bearer {
                None => (s, Err(AuthError::Internal)),
                Some(t) => (
                    AuthState {
                        users: if existing is Some {
                            s.users
                        } else {
                            s.users.push(u)
                        },
                        sessions: spec_register(s.sessions, new_session(session_id, u.id, t, now)),
                        ..s
                    },
                    Ok(
                        LoginReplyView {
                            user: profile_of(u),
                            token: t,
                            expires_at: (now + SESSION_TTL_SECS) as u64,
                        },
                    ),
                ),
            }
        }
    }
}

/// What a sign-in through a social identity provider at `now` does and
/// returns: the sign-in with the token that the signer makes for the
/// account.
pub open spec fn spec_social_login(
    s: AuthState,
    email: Seq<char>,
    name: Seq<char>,
    avatar: Option<Seq<char>>,
    now: u64,
    user_id: Seq<char>,
    session_id: Seq<char>,
) -> (AuthState, Result<LoginReplyView, AuthError>) {
    let u = social_account(s, email, name, avatar, now, user_id);
    spec_social_login_given(
        s,
        email,
        name,
        avatar,
        now,
        user_id,
        session_id,
        token::spec_issue(u.id, u.email, s.secret, now),
    )
}

/// What a social sign-in by the wall clock may do: nothing, with an
/// `Internal` failure, or what it does at some instant with some
/// identifiers.
pub open spec fn social_login_happened(
    pre: AuthState,
    email: Seq<char>,
    name: Seq<char>,
    avatar: Option<Seq<char>>,
    post: AuthState,
    r: Result<LoginReplyView, AuthError>,
) -> bool {
    ||| post == pre && r == Err::<LoginReplyView, AuthError>(AuthError::Internal)
    ||| exists|now: u64, user_id: Seq<char>, session_id: Seq<char>|
        now <= MAX_TIMESTAMP && #[trigger] spec_social_login(
            pre,
            email,
            name,
            avatar,
            now,
            user_id,
            session_id,
        ) == (post, r)
}

impl AuthService {
    /// The profile of the account `user_id`.
    pub fn profile(&self, user_id: &str) -> (r: Result<User, AuthError>)
        ensures
            user_result(r) == spec_profile(self@, user_id@),
    {
        match self.users.find_by_id(user_id) {
            Some(u) => Ok(User::from_record(u)),
            None => Err(AuthError::NotFound),
        }
    }

    /// The own profile of the user a request is from at `now`.
    pub fn get_current_user_at(&self, creds: &Credentials, now: u64) -> (r: Result<User, AuthError>)
        ensures
            user_result(r) == spec_current_user(self@, creds@, now),
    {
        match self.resolve_identity_at(creds, now) {
            Some((user_id, _)) => self.profile(user_id.as_str()),
            None => Err(AuthError::Unauthorized),
        }
    }

    /// The own profile of the user a request is from, by the wall clock: an
    /// `Internal` failure where the clock cannot be read, else the answer at
    /// some instant.
    pub fn get_current_user(&self, creds: &Credentials) -> (r: Result<User, AuthError>)
        ensures
            r matches Err(AuthError::Internal) || exists|now: u64|
                now <= MAX_TIMESTAMP && #[trigger] spec_current_user(self@, creds@, now)
                    == user_result(r),
    {
        let now = match clock::now() {
            Some(t) => t,
            None => {
                return Err(AuthError::Internal);
            },
        };
        let r = self.get_current_user_at(creds, now);
        assert(spec_current_user(self@, creds@, now) == user_result(r));
        r
    }

    /// Changes the password of the user `user_id` at `now`, given what the
    /// hasher said of the current password and the hash of the new one, if
    /// the hasher made one. The session that carries `bearer` stays.
    pub fn change_password_given(
        &mut self,
        user_id: &str,
        bearer: &str,
        verdict: Result<bool, AuthError>,
        new_hash: Option<String>,
        now: u64,
    ) -> (r: Result<(), AuthError>)
        requires
            old(self).wf(),
        ensures
            final(self).wf(),
            (final(self)@, r) == spec_change_password_given(
                old(self)@,
                user_id@,
                bearer@,
                verdict,
                text_opt(new_hash),
                now,
            ),
    {
        proof {
            crate::integrity::lemma_change_password_keeps_refs(
                self@,
                user_id@,
                bearer@,
                verdict,
                text_opt(new_hash),
                now,
            );
        }
        if self.users.position_by_id(user_id).is_none() {
            return Err(AuthError::NotFound);
        }
        match verdict {
            Ok(true) => {},
            Ok(false) => {
                return Err(AuthError::Validation(ValidationIssue::WrongCurrentPassword));
            },
            Err(_) => {
                return Err(AuthError::Internal);
            },
        }
        let hash = match new_hash {
            Some(h) => h,
            None => {
                return Err(AuthError::Internal);
            },
        };
        self.users.set_password_hash(user_id, hash, now);
        self.sessions.revoke_all_except(user_id, bearer);
        Ok(())
    }

    /// Changes the password of the user a request is from at `now`. The new
    /// password is hashed only once the current one is accepted.
    pub fn change_password_at(
        &mut self,
        creds: &Credentials,
        current_password: &str,
        new_password: &str,
        now: u64,
    ) -> (r: Result<(), AuthError>)
        requires
            old(self).wf(),
        ensures
            final(self).wf(),
            change_password_post(
                old(self)@,
                creds@,
                current_password@,
                new_password@,
                now,
                final(self)@,
                r,
            ),
    {
        let (user_id, bearer) = match self.authorize_at(creds, now) {
            Ok(pair) => pair,
            Err(e) => {
                return Err(e);
            },
        };
        if !is_strong_password(new_password) {
            return Err(AuthError::Validation(ValidationIssue::WeakPassword));
        }
        let verdict = match self.users.find_by_id(user_id.as_str()) {
            Some(u) => verify_password(u, current_password),
            None => {
                return Err(AuthError::NotFound);
            },
        };
        let new_hash = match verdict {
            Ok(true) => match crate::hasher::hash(new_password) {
                Ok(h) => if h.as_str().is_empty() {
                    None
                } else {
                    Some(h)
                },
                Err(_) => None,
            },
            _ => None,
        };
        proof {
            lemma_first_index_found(self@.users, by_id(user_id@), 0);
        }
        self.change_password_given(user_id.as_str(), bearer.as_str(), verdict, new_hash, now)
    }

    /// Changes the password of the user a request is from, by the wall
    /// clock.
    pub fn change_password(
        &mut self,
        creds: &Credentials,
        current_password: &str,
        new_password: &str,
    ) -> (r: Result<(), AuthError>)
        requires
            old(self).wf(),
        ensures
            final(self).wf(),
            change_password_happened(
                old(self)@,
                creds@,
                current_password@,
                new_password@,
                final(self)@,
                r,
            ),
    {
        let now = match clock::now() {
            Some(t) => t,
            None => {
                return Err(AuthError::Internal);
            },
        };
        let r = self.change_password_at(creds, current_password, new_password, now);
        assert(change_password_post(
            old(self)@,
            creds@,
            current_password@,
            new_password@,
            now,
            self@,
            r,
        ));
        r
    }

    /// Changes name and address of the user `user_id` at `now` to what is
    /// given.
    pub fn apply_profile_update(
        &mut self,
        user_id: &str,
        name: Option<&str>,
        email: Option<&str>,
        now: u64,
    ) -> (r: Result<(), AuthError>)
        requires
            old(self).wf(),
        ensures
            final(self).wf(),
            (final(self)@, r) == spec_apply_profile_update(
                old(self)@,
                user_id@,
                str_opt(name),
                str_opt(email),
                now,
            ),
    {
        proof {
            crate::integrity::lemma_profile_update_keeps_refs(
                self@,
                user_id@,
                str_opt(name),
                str_opt(email),
                now,
            );
        }
        if let Some(e) = email {
            if self.users.position_by_email(e).is_some() {
                return Err(AuthError::Conflict);
            }
        }
        if name.is_none() && email.is_none() {
            return Err(AuthError::Validation(ValidationIssue::NoUpdates));
        }
        match self.users.update_profile(user_id, name, email, now) {
            Ok(_) => Ok(()),
            Err(e) => Err(e),
        }
    }

    /// Changes name and address of the user a request is from at `now`.
    pub fn update_profile_at(
        &mut self,
        creds: &Credentials,
        name: Option<&str>,
        email: Option<&str>,
        now: u64,
    ) -> (r: Result<(), AuthError>)
        requires
            old(self).wf(),
        ensures
            final(self).wf(),
            (final(self)@, r) == spec_update_profile_request(
                old(self)@,
                creds@,
                str_opt(name),
                str_opt(email),
                now,
            ),
    {
        let (user_id, _) = match self.authorize_at(creds, now) {
            Ok(pair) => pair,
            Err(e) => {
                return Err(e);
            },
        };
        let new_name: Option<&str> = match name {
            Some(n) => if is_blank_text(n) {
                None
            } else {
                Some(n)
            },
            None => None,
        };
        let new_email: Option<&str> = match email {
            Some(e) => if is_blank_text(e) || !is_valid_email(e) {
                None
            } else {
                Some(e)
            },
            None => None,
        };
        assert(str_opt(new_name) == effective_name(str_opt(name)));
        assert(str_opt(new_email) == effective_email(str_opt(email)));
        self.apply_profile_update(user_id.as_str(), new_name, new_email, now)
    }

    /// Changes name and address of the user a request is from, by the wall
    /// clock.
    pub fn update_profile(
        &mut self,
        creds: &Credentials,
        name: Option<&str>,
        email: Option<&str>,
    ) -> (r: Result<(), AuthError>)
        requires
            old(self).wf(),
        ensures
            final(self).wf(),
            update_profile_happened(
                old(self)@,
                creds@,
                str_opt(name),
                str_opt(email),
                final(self)@,
                r,
            ),
    {
        let now = match clock::now() {
            Some(t) => t,
            None => {
                return Err(AuthError::Internal);
            },
        };
        let r = self.update_profile_at(creds, name, email, now);
        assert(spec_update_profile_request(
            old(self)@,
            creds@,
            str_opt(name),
            str_opt(email),
            now,
        ) == (self@, r));
        r
    }

    /// Removes the account `user_id` with all that belongs to it.
    pub fn remove_account(&mut self, user_id: &str)
        requires
            old(self).wf(),
        ensures
            final(self).wf(),
            final(self)@ == spec_remove_account(old(self)@, user_id@),
    {
        proof {
            crate::integrity::lemma_remove_account_keeps_refs(self@, user_id@);
        }
        self.users.remove(user_id);
        self.sessions.remove_user(user_id);
        self.csrf.remove_user(user_id);
        self.one_time.remove_user(user_id);
    }

    /// Deletes the account of the user a request is from at `now`, with all
    /// that belongs to it.
    pub fn delete_account_at(&mut self, creds: &Credentials, now: u64) -> (r: Result<(), AuthError>)
        requires
            old(self).wf(),
        ensures
            final(self).wf(),
            (final(self)@, r) == spec_delete_account(old(self)@, creds@, now),
    {
        let (user_id, _) = match self.authorize_at(creds, now) {
            Ok(pair) => pair,
            Err(e) => {
                return Err(e);
            },
        };
        self.remove_account(user_id.as_str());
        Ok(())
    }

    /// Deletes the account of the user a request is from, by the wall
    /// clock.
    pub fn delete_account(&mut self, creds: &Credentials) -> (r: Result<(), AuthError>)
        requires
            old(self).wf(),
        ensures
            final(self).wf(),
            delete_account_happened(old(self)@, creds@, final(self)@, r),
    {
        let now = match clock::now() {
            Some(t) => t,
            None => {
                return Err(AuthError::Internal);
            },
        };
        let r = self.delete_account_at(creds, now);
        assert(spec_delete_account(old(self)@, creds@, now) == (self@, r));
        r
    }

    /// Signs a user in at `now` on the word of a social identity provider,
    /// given the bearer token that was signed for the account, if one was.
    /// `user_id` is used only where an account has to be created.
    pub fn social_login_given(
        &mut self,
        email: &str,
        name: &str,
        avatar: Option<String>,
        now: u64,
        user_id: String,
        session_id: String,
        bearer: Option<String>,
    ) -> (r: Result<LoginReply, AuthError>)
        requires
            old(self).wf(),
            now <= MAX_TIMESTAMP,
        ensures
            final(self).wf(),
            (final(self)@, login_view(r)) == spec_social_login_given(
                old(self)@,
                email@,
                name@,
                text_opt(avatar),
                now,
                user_id@,
                session_id@,
                text_opt(bearer),
            ),
    {
        proof {
            crate::integrity::lemma_social_login_keeps_refs(
                self@,
                email@,
                name@,
                text_opt(avatar),
                now,
                user_id@,
                session_id@,
                text_opt(bearer),
            );
        }
        if email.is_empty() {
            return Err(AuthError::Validation(ValidationIssue::MissingFields));
        }
        let existing = match self.users.find_by_email(email) {
            Some(u) => Some(User::from_record(u)),
            None => None,
        };
        if existing.is_none() && self.users.position_by_id(user_id.as_str()).is_some() {
            return Err(AuthError::Internal);
        }
        let bearer = match bearer {
            Some(t) => t,
            None => {
                return Err(AuthError::Internal);
            },
        };
        let user = match existing {
            Some(user) => user,
            None => {
                let ghost record = new_social_account(
                    user_id@,
                    email@,
                    name@,
                    text_opt(avatar),
                    now,
                );
                let created = self.users.create_social(user_id, email, name, avatar, now);
                assert(created is Ok);
                let last = self.users.len() - 1;
                assert(self.users@[last as int] == record);
                User::from_record(&self.users.users[last])
            },
        };
        self.sessions.create(session_id, user.id.as_str(), bearer.as_str(), now);
        Ok(LoginReply { user, token: bearer, expires_at: now + SESSION_TTL_SECS })
    }

    /// Signs a user in at `now` on the word of a social identity provider.
    /// `user_id` is used only where an account has to be created.
    pub fn social_login_at(
        &mut self,
        email: &str,
        name: &str,
        avatar: Option<String>,
        now: u64,
        user_id: String,
        session_id: String,
    ) -> (r: Result<LoginReply, AuthError>)
        requires
            old(self).wf(),
            now <= MAX_TIMESTAMP,
        ensures
            final(self).wf(),
            (final(self)@, login_view(r)) == spec_social_login(
                old(self)@,
                email@,
                name@,
                text_opt(avatar),
                now,
                user_id@,
                session_id@,
            ),
    {
        if email.is_empty() {
            return Err(AuthError::Validation(ValidationIssue::MissingFields));
        }
        let bearer = match self.users.find_by_email(email) {
            Some(u) => token::issue_at(u.id.as_str(), u.email.as_str(), self.secret.as_str(), now),
            None => token::issue_at(user_id.as_str(), email, self.secret.as_str(), now),
        };
        let bearer = match bearer {
            Ok(t) => Some(t),
            Err(_) => None,
        };
        self.social_login_given(email, name, avatar, now, user_id, session_id, bearer)
    }

    /// Signs a user in on the word of a social identity provider, by the
    /// wall clock and with identifiers drawn at random.
    pub fn social_login(&mut self, email: &str, name: &str, avatar: Option<String>) -> (r: Result<
        LoginReply,
        AuthError,
    >)
        requires
            old(self).wf(),
        ensures
            final(self).wf(),
            social_login_happened(
                old(self)@,
                email@,
                name@,
                text_opt(avatar),
                final(self)@,
                login_view(r),
            ),
    {
        let now = match clock::now() {
            Some(t) => t,
            None => {
                return Err(AuthError::Internal);
            },
        };
        let user_id = random_uuid();
        let session_id = random_uuid();
        let ghost uid = user_id@;
        let ghost sid = session_id@;
        let r = self.social_login_at(email, name, avatar, now, user_id, session_id);
        assert(spec_social_login(old(self)@, email@, name@, text_opt(avatar), now, uid, sid) == (
            self@,
            login_view(r),
        ));
        r
    }
}

} // verus!
