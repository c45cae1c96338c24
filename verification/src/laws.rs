//! What the operations guarantee over several requests: lockout, tokens
//! that work once or until they expire, the anti-forgery check, signup
//! followed by login, and deletion. Each law is stated over the same
//! functions as the operations' contracts.

use crate::account::spec_delete_account;
use crate::credentials::{
    by_email,
    by_id,
    lemma_record_is_first,
    lock_of,
    password_verdict,
    spec_record_login_failure,
    with_lock,
};
use crate::csrf::{lemma_issued_token_validates, not_of, spec_validate, text_of};
use crate::error::AuthError;
use crate::lockout::{after_failure, is_locked_at, LockState, LOCK_WINDOW_SECS, MAX_TIMESTAMP};
use crate::onetime::{lemma_consume_is_single_use, not_owned_by, TokenKind};
use crate::recovery::{reset_password_post, reset_rejection, spec_verify_email};
use crate::search::{
    distinct_keys,
    first_index,
    lemma_first_index_found,
    lemma_first_index_none,
    lemma_first_index_push,
    lemma_first_index_update,
};
use crate::service::{
    signup_post,
    signup_rejection,
    spec_authorize,
    spec_identity,
    spec_login,
    state_wf,
    AuthState,
    CredentialsView,
    LoginReplyView,
    SignupReplyView,
};
use crate::session_api::{spec_csrf_token, spec_logout};
use crate::sessions::{
    by_token,
    is_live,
    new_session,
    spec_list_active,
    SessionView,
    SESSION_TTL_SECS,
};
use crate::token;
use crate::token::{bearer_prefix, spec_bearer, spec_extract_token};
use crate::validation::strong_password;
use vstd::prelude::*;

verus! {

/// One login attempt: the password tried, the instant, and the id that a
/// session would get.
pub struct Attempt {
    pub password: Seq<char>,
    pub now: u64,
    pub session_id: Seq<char>,
}

/// The state after a run of login attempts on one address, oldest first.
pub open spec fn spec_logins(s: AuthState, email: Seq<char>, attempts: Seq<Attempt>) -> AuthState
    decreases attempts.len(),
{
    if attempts.len() == 0 {
        s
    } else {
        let last = attempts.last();
        spec_login(
            spec_logins(s, email, attempts.drop_last()),
            email,
            last.password,
            last.now,
            last.session_id,
        ).0
    }
}

/// An attempt with a wrong password on an account that is not locked is
/// answered with `Unauthorized` and moves the account's lock state one step
/// of the lockout policy; the account keeps its place and its password.
pub proof fn lemma_failed_login_steps_policy(
    s: AuthState,
    email: Seq<char>,
    attempt: Attempt,
    i: int,
)
    requires
        email.len() > 0,
        attempt.password.len() > 0,
        first_index(s.users, by_email(email)) == Some(i),
        !is_locked_at(lock_of(s.users[i]), attempt.now),
        password_verdict(s.users[i].password_hash, attempt.password) == Ok::<bool, AuthError>(
            false,
        ),
    ensures
        ({
            let (after, reply) = spec_login(
                s,
                email,
                attempt.password,
                attempt.now,
                attempt.session_id,
            );
            &&& reply == Err::<LoginReplyView, AuthError>(AuthError::Unauthorized)
            &&& first_index(after.users, by_email(email)) == Some(i)
            &&& after.users[i].password_hash == s.users[i].password_hash
            &&& lock_of(after.users[i]) == after_failure(lock_of(s.users[i]), attempt.now)
            &&& after.secret == s.secret
        }),
{
    lemma_first_index_found(s.users, by_email(email), 0);
    let u = with_lock(s.users[i], after_failure(lock_of(s.users[i]), attempt.now));
    assert(by_email(email)(u) == by_email(email)(s.users[i]));
    lemma_first_index_update(s.users, by_email(email), i, u);
    assert(spec_record_login_failure(s.users, email, attempt.now) == s.users.update(i, u));
}

/// Five wrong passwords in a row, on an account without failures, lock the
/// account until exactly one lock window after the fifth. From then until
/// that instant every attempt is answered with `AccountLocked` and changes
/// nothing, whatever password it brings: the password is not looked at.
pub proof fn lemma_five_failed_logins_lock(
    s: AuthState,
    email: Seq<char>,
    attempts: Seq<Attempt>,
    i: int,
)
    requires
        email.len() > 0,
        first_index(s.users, by_email(email)) == Some(i),
        lock_of(s.users[i]) == (LockState::Unlocked { failed: 0 }),
        attempts.len() == 5,
        forall|k: int|
            0 <= k < 5 ==> (#[trigger] attempts[k]).password.len() > 0 && attempts[k].now
                <= MAX_TIMESTAMP && password_verdict(
                s.users[i].password_hash,
                attempts[k].password,
            ) == Ok::<bool, AuthError>(false),
    ensures
        ({
            let after = spec_logins(s, email, attempts);
            let until = (attempts[4].now + LOCK_WINDOW_SECS) as u64;
            &&& first_index(after.users, by_email(email)) == Some(i)
            &&& lock_of(after.users[i]) == (LockState::Locked { until })
            &&& forall|password: Seq<char>, now: u64, session_id: Seq<char>|
                password.len() > 0 && now < until ==> #[trigger] spec_login(
                    after,
                    email,
                    password,
                    now,
                    session_id,
                ) == (after, Err::<LoginReplyView, AuthError>(AuthError::AccountLocked))
        }),
{
    let a0 = attempts.take(0);
    let a1 = attempts.take(1);
    let a2 = attempts.take(2);
    let a3 = attempts.take(3);
    let a4 = attempts.take(4);
    assert(attempts.take(5) =~= attempts);
    assert(a1.drop_last() =~= a0 && a1.last() == attempts[0]);
    assert(a2.drop_last() =~= a1 && a2.last() == attempts[1]);
    assert(a3.drop_last() =~= a2 && a3.last() == attempts[2]);
    assert(a4.drop_last() =~= a3 && a4.last() == attempts[3]);
    assert(attempts.drop_last() =~= a4 && attempts.last() == attempts[4]);
    let s0 = spec_logins(s, email, a0);
    assert(s0 == s);
    let s1 = spec_logins(s, email, a1);
    lemma_failed_login_steps_policy(s0, email, attempts[0], i);
    assert(lock_of(s1.users[i]) == (LockState::Unlocked { failed: 1 }));
    let s2 = spec_logins(s, email, a2);
    lemma_failed_login_steps_policy(s1, email, attempts[1], i);
    assert(lock_of(s2.users[i]) == (LockState::Unlocked { failed: 2 }));
    let s3 = spec_logins(s, email, a3);
    lemma_failed_login_steps_policy(s2, email, attempts[2], i);
    assert(lock_of(s3.users[i]) == (LockState::Unlocked { failed: 3 }));
    let s4 = spec_logins(s, email, a4);
    lemma_failed_login_steps_policy(s3, email, attempts[3], i);
    assert(lock_of(s4.users[i]) == (LockState::Unlocked { failed: 4 }));
    let s5 = spec_logins(s, email, attempts);
    lemma_failed_login_steps_policy(s4, email, attempts[4], i);
}

/// While an account is locked, two attempts that differ in nothing but the
/// password get the same answer and leave the same state.
pub proof fn lemma_locked_login_ignores_password(
    s: AuthState,
    email: Seq<char>,
    first: Seq<char>,
    second: Seq<char>,
    now: u64,
    session_id: Seq<char>,
)
    requires
        first.len() > 0,
        second.len() > 0,
        first_index(s.users, by_email(email)) matches Some(i) && is_locked_at(
            lock_of(s.users[i]),
            now,
        ),
    ensures
        spec_login(s, email, first, now, session_id) == spec_login(
            s,
            email,
            second,
            now,
            session_id,
        ),
{
}

/// Once the lock window has elapsed, an attempt with the right password is
/// let in, provided the signer works, and leaves the account without
/// failures and without lock.
pub proof fn lemma_login_after_lock_elapsed(
    s: AuthState,
    email: Seq<char>,
    password: Seq<char>,
    now: u64,
    session_id: Seq<char>,
    i: int,
)
    requires
        state_wf(s),
        email.len() > 0,
        password.len() > 0,
        first_index(s.users, by_email(email)) == Some(i),
        lock_of(s.users[i]) matches LockState::Locked { until } && until <= now,
        password_verdict(s.users[i].password_hash, password) == Ok::<bool, AuthError>(true),
        token::spec_issue(s.users[i].id, s.users[i].email, s.secret, now) is Some,
    ensures
        ({
            let (after, reply) = spec_login(s, email, password, now, session_id);
            &&& reply matches Ok(r) && r.user.id == s.users[i].id
            &&& after.users[i].failed_login_attempts == 0
            &&& after.users[i].locked_until is None
            &&& after.users[i].last_login == Some(now)
        }),
{
    lemma_first_index_found(s.users, by_email(email), 0);
    lemma_record_is_first(s.users, i);
}

/// The anti-forgery check refuses a request from a known user with
/// `Forbidden` where the header is missing, where the token it carries
/// belongs to another user, and where that token has expired.
pub proof fn lemma_csrf_failures_are_forbidden(s: AuthState, creds: CredentialsView, now: u64)
    requires
        spec_identity(s.secret, creds, now) matches Some((user_id, _)) && (creds.csrf is None
            || forall|k: int|
            0 <= k < s.csrf.len() && (#[trigger] s.csrf[k]).token == creds.csrf->0
                ==> s.csrf[k].user_id != user_id || s.csrf[k].expires_at <= now),
    ensures
        spec_authorize(s, creds, now) == Err::<(Seq<char>, Seq<char>), AuthError>(
            AuthError::Forbidden,
        ),
{
}

/// A request without an accepted bearer token is `Unauthorized`, whatever
/// anti-forgery header it carries.
pub proof fn lemma_no_identity_is_unauthorized(s: AuthState, creds: CredentialsView, now: u64)
    requires
        spec_identity(s.secret, creds, now) is None,
    ensures
        spec_authorize(s, creds, now) == Err::<(Seq<char>, Seq<char>), AuthError>(
            AuthError::Unauthorized,
        ),
{
}

/// The `Authorization` header that presents a bearer token.
pub open spec fn bearer_header(token: Seq<char>) -> Seq<char> {
    bearer_prefix() + token
}

/// A header made of the prefix and a token presents that token, whatever
/// the cookies say.
pub proof fn lemma_bearer_header_presents_token(token: Seq<char>, cookie: Option<Seq<char>>)
    ensures
        spec_extract_token(Some(bearer_header(token)), cookie) == Some(token),
{
    let h = bearer_header(token);
    let p = bearer_prefix();
    assert(h.subrange(0, p.len() as int) =~= p);
    assert(h.skip(p.len() as int) =~= token);
    assert(spec_bearer(h) == Some(token));
}

/// The bearer token that a login hands out names the user, to every request
/// that presents it in the `Authorization` header, from the login until the
/// expiry the reply states, and to none from then on.
pub proof fn lemma_login_token_identifies_user(
    s: AuthState,
    email: Seq<char>,
    password: Seq<char>,
    now: u64,
    session_id: Seq<char>,
    creds: CredentialsView,
    later: u64,
)
    requires
        now <= MAX_TIMESTAMP,
        spec_login(s, email, password, now, session_id).1 matches Ok(reply)
            && creds.authorization == Some(bearer_header(reply.token)),
    ensures
        ({
            let (after, r) = spec_login(s, email, password, now, session_id);
            let reply = r->Ok_0;
            &&& reply.expires_at == now + SESSION_TTL_SECS
            &&& later < reply.expires_at ==> spec_identity(after.secret, creds, later) == Some(
                (reply.user.id, reply.token),
            )
            &&& later >= reply.expires_at ==> spec_identity(after.secret, creds, later) is None
        }),
{
    let (after, r) = spec_login(s, email, password, now, session_id);
    let reply = r->Ok_0;
    lemma_bearer_header_presents_token(reply.token, creds.cookie);
    lemma_first_index_found(s.users, by_email(email), 0);
}

/// The anti-forgery token that is handed to a user lets that user's
/// requests through the anti-forgery check from then until the token
/// expires, as long as their bearer token is accepted.
pub proof fn lemma_issued_csrf_token_authorizes(
    s: AuthState,
    creds: CredentialsView,
    now: u64,
    fresh_id: Seq<char>,
    fresh_token: Seq<char>,
    later: u64,
)
    requires
        now <= MAX_TIMESTAMP,
        now <= later,
        spec_csrf_token(s, creds, now, fresh_id, fresh_token).1 matches Ok(issued) && later
            < issued.1,
        spec_identity(s.secret, creds, later) == spec_identity(s.secret, creds, now),
    ensures
        ({
            let (after, r) = spec_csrf_token(s, creds, now, fresh_id, fresh_token);
            let (token, _) = r->Ok_0;
            let with_header = CredentialsView { csrf: Some(token), ..creds };
            spec_authorize(after, with_header, later) is Ok
        }),
{
    let (user_id, _) = spec_identity(s.secret, creds, now)->0;
    lemma_issued_token_validates(s.csrf, user_id, now, fresh_id, fresh_token, later);
}

/// A reset token works once: after a reset that went through, every later
/// reset with the same token is refused as invalid or expired and changes
/// nothing.
pub proof fn lemma_reset_token_is_single_use(
    pre: AuthState,
    token: Seq<char>,
    new_password: Seq<char>,
    now: u64,
    post: AuthState,
    later_password: Seq<char>,
    later: u64,
)
    requires
        reset_password_post(pre, token, new_password, now, post, Ok(())),
        strong_password(later_password),
    ensures
        reset_rejection(post, token, later_password, later) == Some(
            AuthError::InvalidOrExpiredToken,
        ),
{
    lemma_consume_is_single_use(
        pre.one_time,
        token,
        TokenKind::PasswordReset,
        now,
        TokenKind::PasswordReset,
        later,
    );
}

/// A verification token works once: after a verification that consumed it,
/// every later verification with the same token is refused as invalid or
/// expired and changes nothing.
pub proof fn lemma_verification_token_is_single_use(
    s: AuthState,
    token: Seq<char>,
    now: u64,
    later: u64,
)
    requires
        spec_verify_email(s, token, now).1 is Ok,
    ensures
        ({
            let after = spec_verify_email(s, token, now).0;
            spec_verify_email(after, token, later) == (
                after,
                Err::<(), AuthError>(AuthError::InvalidOrExpiredToken),
            )
        }),
{
    lemma_consume_is_single_use(
        s.one_time,
        token,
        TokenKind::EmailVerification,
        now,
        TokenKind::EmailVerification,
        later,
    );
}

/// An anti-forgery token serves one user: where token texts are unique, a
/// token that is valid for one user at some instant is valid for no other
/// user at any instant.
pub proof fn lemma_csrf_token_serves_one_user(
    s: AuthState,
    token: Seq<char>,
    first_user: Seq<char>,
    first_now: u64,
    second_user: Seq<char>,
    second_now: u64,
)
    requires
        distinct_keys(s.csrf, text_of()),
        spec_validate(s.csrf, first_user, token, first_now),
        spec_validate(s.csrf, second_user, token, second_now),
    ensures
        first_user == second_user,
{
    let i = choose|i: int|
        0 <= i < s.csrf.len() && (#[trigger] s.csrf[i]).user_id == first_user && s.csrf[i].token
            == token && first_now < s.csrf[i].expires_at;
    let j = choose|j: int|
        0 <= j < s.csrf.len() && (#[trigger] s.csrf[j]).user_id == second_user && s.csrf[j].token
            == token && second_now < s.csrf[j].expires_at;
    if i < j {
        assert(text_of()(s.csrf[i]) != text_of()(s.csrf[j]));
    } else if j < i {
        assert(text_of()(s.csrf[j]) != text_of()(s.csrf[i]));
    }
}

/// Deleting an account leaves nothing behind: afterwards no account has the
/// user's id, and no session, anti-forgery token or single-use token refers
/// to it.
pub proof fn lemma_deleted_account_leaves_nothing(s: AuthState, creds: CredentialsView, now: u64)
    requires
        state_wf(s),
        spec_delete_account(s, creds, now).1 is Ok,
    ensures
        ({
            let after = spec_delete_account(s, creds, now).0;
            let (user_id, _) = spec_authorize(s, creds, now)->Ok_0;
            &&& first_index(after.users, by_id(user_id)) is None
            &&& forall|k: int|
                0 <= k < after.sessions.len() ==> (#[trigger] after.sessions[k]).user_id != user_id
            &&& forall|k: int|
                0 <= k < after.csrf.len() ==> (#[trigger] after.csrf[k]).user_id != user_id
            &&& forall|k: int|
                0 <= k < after.one_time.len() ==> (#[trigger] after.one_time[k]).user_id != user_id
        }),
{
    let after = spec_delete_account(s, creds, now).0;
    let (user_id, _) = spec_authorize(s, creds, now)->Ok_0;
    lemma_first_index_found(s.users, by_id(user_id), 0);
    match first_index(s.users, by_id(user_id)) {
        Some(i) => {
            assert forall|k: int| 0 <= k < after.users.len() implies !by_id(user_id)(
                #[trigger] after.users[k],
            ) by {
                let k0 = if k < i {
                    k
                } else {
                    k + 1
                };
                assert(after.users[k] == s.users[k0]);
                if k0 < i {
                    assert(s.users[k0].id != s.users[i].id);
                } else {
                    assert(s.users[i].id != s.users[k0].id);
                }
            }
        },
        None => {},
    }
    lemma_first_index_none(after.users, by_id(user_id), 0);
    let keep_sessions = |x: SessionView| x.user_id != user_id;
    assert forall|k: int| 0 <= k < after.sessions.len() implies (
    #[trigger] after.sessions[k]).user_id != user_id by {
        s.sessions.lemma_filter_pred(keep_sessions, k);
        assert(keep_sessions(after.sessions[k]));
    }
    assert forall|k: int| 0 <= k < after.csrf.len() implies (#[trigger] after.csrf[k]).user_id
        != user_id by {
        s.csrf.lemma_filter_pred(not_of(user_id), k);
        assert(not_of(user_id)(after.csrf[k]));
    }
    assert forall|k: int| 0 <= k < after.one_time.len() implies (
    #[trigger] after.one_time[k]).user_id != user_id by {
        s.one_time.lemma_filter_pred(not_owned_by(user_id), k);
        assert(not_owned_by(user_id)(after.one_time[k]));
    }
}

/// A new account can log in at once with the password it signed up with,
/// whether or not its address is confirmed yet; all that can still fail is
/// the signer.
pub proof fn lemma_signup_then_login(
    pre: AuthState,
    email: Seq<char>,
    password: Seq<char>,
    name: Seq<char>,
    now: u64,
    user_id: Seq<char>,
    verification_id: Seq<char>,
    verification_token: Seq<char>,
    post: AuthState,
    reply: SignupReplyView,
    later: u64,
    session_id: Seq<char>,
)
    requires
        signup_post(
            pre,
            email,
            password,
            name,
            now,
            user_id,
            verification_id,
            verification_token,
            post,
            Ok(reply),
        ),
        token::spec_issue(user_id, email, post.secret, later) is Some,
    ensures
        spec_login(post, email, password, later, session_id).1 matches Ok(login)
            && login.user.id == user_id && !login.user.email_verified,
{
    let stored = post.users.last();
    assert(signup_rejection(pre, email, password, name, user_id, verification_token) is None);
    assert(by_email(email)(stored));
    lemma_first_index_push(pre.users, by_email(email), stored);
}

/// A login opens a session that is among the user's live sessions from the
/// login until the expiry the reply states.
pub proof fn lemma_login_opens_live_session(
    s: AuthState,
    email: Seq<char>,
    password: Seq<char>,
    now: u64,
    session_id: Seq<char>,
    later: u64,
)
    requires
        now <= MAX_TIMESTAMP,
        spec_login(s, email, password, now, session_id).1 matches Ok(reply) && later
            < reply.expires_at,
    ensures
        ({
            let (after, r) = spec_login(s, email, password, now, session_id);
            let reply = r->Ok_0;
            let opened = new_session(session_id, reply.user.id, reply.token, now);
            spec_list_active(after.sessions, reply.user.id, later).contains(opened)
        }),
{
    let (after, r) = spec_login(s, email, password, now, session_id);
    let reply = r->Ok_0;
    let opened = new_session(session_id, reply.user.id, reply.token, now);
    let mine = |x: SessionView| x.user_id == reply.user.id && is_live(x, later);
    lemma_first_index_found(s.users, by_email(email), 0);
    lemma_first_index_found(s.sessions, by_token(reply.token), 0);
    let at = match first_index(s.sessions, by_token(reply.token)) {
        Some(i) => i,
        None => s.sessions.len() as int,
    };
    assert(after.sessions[at] == opened);
    assert(mine(opened));
    after.sessions.lemma_filter_contains(mine, at);
}

/// A logout ends the session of the bearer token it presents: afterwards no
/// session with that token is active.
pub proof fn lemma_logout_ends_session(s: AuthState, creds: CredentialsView, token: Seq<char>)
    requires
        spec_extract_token(creds.authorization, creds.cookie) == Some(token),
    ensures
        ({
            let after = spec_logout(s, creds);
            forall|k: int|
                0 <= k < after.sessions.len() && (#[trigger] after.sessions[k]).token == token
                    ==> !after.sessions[k].is_active
        }),
{
}

} // verus!
