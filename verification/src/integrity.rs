//! Referential integrity: every session, anti-forgery token and single-use
//! token belongs to an account that exists. The state transitions of the
//! service keep it so.

use crate::account::{
    social_account,
    spec_apply_profile_update,
    spec_change_password_given,
    spec_remove_account,
    spec_social_login_given,
};
use crate::credentials::{
    by_email,
    by_id,
    new_account,
    spec_record_login_failure,
    spec_record_login_success,
    spec_remove,
    users_wf,
    with_profile,
    AuthUserView,
};
use crate::csrf::{not_of, spec_issue_or_reuse, survives_purge};
use crate::error::AuthError;
use crate::onetime::{
    carrying,
    not_owned_by,
    outlives,
    spec_consume,
    OneTimeTokenView,
    TokenKind,
};
use crate::recovery::{spec_forgot_password, spec_reset_password_given, spec_verify_email};
use crate::search::{first_index, lemma_first_index_found};
use crate::service::{
    all_owned,
    csrf_owner,
    has_user,
    one_time_owner,
    refs_ok,
    session_owner,
    spec_login_given,
    spec_register_account,
    AuthState,
};
use crate::sessions::{
    by_token,
    new_session,
    spec_register,
    spec_revoke,
    SelectionView,
    SessionView,
};
use vstd::prelude::*;

verus! {

/// An account that is found by its id exists, and the other way round.
pub proof fn lemma_has_user_is_found(users: Seq<AuthUserView>, id: Seq<char>)
    ensures
        has_user(users, id) == (first_index(users, by_id(id)) is Some),
{
    lemma_first_index_found(users, by_id(id), 0);
    if has_user(users, id) {
        let i = choose|i: int| 0 <= i < users.len() && (#[trigger] users[i]).id == id;
        assert(by_id(id)(users[i]));
    }
    if first_index(users, by_id(id)) is Some {
        let i = first_index(users, by_id(id))->0;
        assert(users[i].id == id);
    }
}

/// Two lists of accounts with the same ids at the same places own the same
/// rows.
pub proof fn lemma_same_ids_own_the_same<T>(
    users: Seq<AuthUserView>,
    after: Seq<AuthUserView>,
    rows: Seq<T>,
    owner: spec_fn(T) -> Seq<char>,
)
    requires
        after.len() == users.len(),
        forall|i: int| 0 <= i < users.len() ==> (#[trigger] after[i]).id == users[i].id,
        all_owned(users, rows, owner),
    ensures
        all_owned(after, rows, owner),
{
    assert forall|k: int| 0 <= k < rows.len() implies has_user(after, owner(#[trigger] rows[k])) by {
        assert(has_user(users, owner(rows[k])));
        let i = choose|i: int| 0 <= i < users.len() && (#[trigger] users[i]).id == owner(rows[k]);
        assert(after[i].id == owner(rows[k]));
    }
}

/// One more account takes nothing away.
pub proof fn lemma_more_users_own_the_same<T>(
    users: Seq<AuthUserView>,
    u: AuthUserView,
    rows: Seq<T>,
    owner: spec_fn(T) -> Seq<char>,
)
    requires
        all_owned(users, rows, owner),
    ensures
        all_owned(users.push(u), rows, owner),
        has_user(users.push(u), u.id),
{
    let after = users.push(u);
    assert(after[users.len() as int].id == u.id);
    assert forall|k: int| 0 <= k < rows.len() implies has_user(after, owner(#[trigger] rows[k])) by {
        assert(has_user(users, owner(rows[k])));
        let i = choose|i: int| 0 <= i < users.len() && (#[trigger] users[i]).id == owner(rows[k]);
        assert(after[i].id == owner(rows[k]));
    }
}

/// Rows that are kept by a filter are owned if all rows were.
pub proof fn lemma_kept_rows_are_owned<T>(
    users: Seq<AuthUserView>,
    rows: Seq<T>,
    owner: spec_fn(T) -> Seq<char>,
    keep: spec_fn(T) -> bool,
)
    requires
        all_owned(users, rows, owner),
    ensures
        all_owned(users, rows.filter(keep), owner),
{
    let kept = rows.filter(keep);
    assert forall|k: int| 0 <= k < kept.len() implies has_user(users, owner(#[trigger] kept[k])) by {
        rows.lemma_filter_contains_rev(keep, kept[k]);
        let j = choose|j: int| 0 <= j < rows.len() && rows[j] == kept[k];
        assert(has_user(users, owner(rows[j])));
    }
}

/// One more row of an account that exists is owned like the others.
pub proof fn lemma_new_row_is_owned<T>(
    users: Seq<AuthUserView>,
    rows: Seq<T>,
    owner: spec_fn(T) -> Seq<char>,
    row: T,
)
    requires
        all_owned(users, rows, owner),
        has_user(users, owner(row)),
    ensures
        all_owned(users, rows.push(row), owner),
{
    let after = rows.push(row);
    assert forall|k: int| 0 <= k < after.len() implies has_user(users, owner(#[trigger] after[k])) by {
        if k < rows.len() {
            assert(after[k] == rows[k]);
            assert(has_user(users, owner(rows[k])));
        }
    }
}

/// Rows that keep their owners stay owned.
pub proof fn lemma_same_owners_stay_owned<T>(
    users: Seq<AuthUserView>,
    rows: Seq<T>,
    after: Seq<T>,
    owner: spec_fn(T) -> Seq<char>,
)
    requires
        all_owned(users, rows, owner),
        after.len() == rows.len(),
        forall|k: int| 0 <= k < rows.len() ==> owner(#[trigger] after[k]) == owner(rows[k]),
    ensures
        all_owned(users, after, owner),
{
    assert forall|k: int| 0 <= k < after.len() implies has_user(users, owner(#[trigger] after[k])) by {
        assert(has_user(users, owner(rows[k])));
    }
}

/// A revocation keeps the owners of all sessions.
pub proof fn lemma_revoke_keeps_refs(s: AuthState, sel: SelectionView)
    requires
        refs_ok(s),
    ensures
        refs_ok(AuthState { sessions: spec_revoke(s.sessions, sel), ..s }),
{
    let after = spec_revoke(s.sessions, sel);
    assert forall|k: int| 0 <= k < s.sessions.len() implies session_owner()(#[trigger] after[k])
        == session_owner()(s.sessions[k]) by {}
    lemma_same_owners_stay_owned(s.users, s.sessions, after, session_owner());
}

/// Registering a session of an account that exists keeps integrity.
pub proof fn lemma_register_keeps_refs(users: Seq<AuthUserView>, sessions: Seq<SessionView>, s: SessionView)
    requires
        all_owned(users, sessions, session_owner()),
        has_user(users, s.user_id),
    ensures
        all_owned(users, spec_register(sessions, s), session_owner()),
{
    let after = spec_register(sessions, s);
    assert forall|k: int| 0 <= k < after.len() implies has_user(
        users,
        session_owner()(#[trigger] after[k]),
    ) by {
        match first_index(sessions, by_token(s.token)) {
            Some(i) => {
                lemma_first_index_found(sessions, by_token(s.token), 0);
                if k != i {
                    assert(after[k] == sessions[k]);
                    assert(has_user(users, session_owner()(sessions[k])));
                }
            },
            None => {
                if k < sessions.len() {
                    assert(after[k] == sessions[k]);
                    assert(has_user(users, session_owner()(sessions[k])));
                }
            },
        }
    }
}

/// A login keeps integrity, however it ends.
pub proof fn lemma_login_keeps_refs(
    s: AuthState,
    email: Seq<char>,
    now: u64,
    session_id: Seq<char>,
    verdict: Result<bool, AuthError>,
    bearer: Option<Seq<char>>,
)
    requires
        refs_ok(s),
    ensures
        refs_ok(spec_login_given(s, email, now, session_id, verdict, bearer).0),
{
    let after = spec_login_given(s, email, now, session_id, verdict, bearer).0;
    lemma_first_index_found(s.users, by_email(email), 0);
    if after != s {
        let i = first_index(s.users, by_email(email))->0;
        let id = s.users[i].id;
        lemma_first_index_found(s.users, by_id(id), 0);
        if verdict == Ok::<bool, AuthError>(true) {
            assert(after.users == spec_record_login_success(s.users, id, now));
        } else {
            assert(after.users == spec_record_login_failure(
                s.users,
                email,
                now,
            ));
        }
        assert(after.users.len() == s.users.len());
        assert forall|j: int| 0 <= j < s.users.len() implies (#[trigger] after.users[j]).id
            == s.users[j].id by {}
        lemma_same_ids_own_the_same(s.users, after.users, s.sessions, session_owner());
        lemma_same_ids_own_the_same(s.users, after.users, s.csrf, csrf_owner());
        lemma_same_ids_own_the_same(s.users, after.users, s.one_time, one_time_owner());
        if verdict == Ok::<bool, AuthError>(true) {
            assert(after.users[i].id == id);
            assert(has_user(after.users, id));
            lemma_register_keeps_refs(
                after.users,
                s.sessions,
                new_session(session_id, id, bearer->0, now),
            );
        }
    }
}

/// Storing a new account keeps integrity.
pub proof fn lemma_register_account_keeps_refs(
    s: AuthState,
    email: Seq<char>,
    name: Seq<char>,
    password_hash: Seq<char>,
    now: u64,
    user_id: Seq<char>,
    verification_id: Seq<char>,
    verification_token: Seq<char>,
)
    requires
        refs_ok(s),
    ensures
        refs_ok(
            spec_register_account(
                s,
                email,
                name,
                password_hash,
                now,
                user_id,
                verification_id,
                verification_token,
            ).0,
        ),
{
    let after = spec_register_account(
        s,
        email,
        name,
        password_hash,
        now,
        user_id,
        verification_id,
        verification_token,
    ).0;
    if after != s {
        let u = new_account(user_id, email, name, password_hash, now);
        lemma_more_users_own_the_same(s.users, u, s.sessions, session_owner());
        lemma_more_users_own_the_same(s.users, u, s.csrf, csrf_owner());
        lemma_more_users_own_the_same(s.users, u, s.one_time, one_time_owner());
        lemma_kept_rows_are_owned(
            after.users,
            s.one_time,
            one_time_owner(),
            outlives(user_id, now),
        );
        lemma_new_row_is_owned(
            after.users,
            s.one_time.filter(outlives(user_id, now)),
            one_time_owner(),
            after.one_time.last(),
        );
    }
}

/// A social sign-in keeps integrity, however it ends.
pub proof fn lemma_social_login_keeps_refs(
    s: AuthState,
    email: Seq<char>,
    name: Seq<char>,
    avatar: Option<Seq<char>>,
    now: u64,
    user_id: Seq<char>,
    session_id: Seq<char>,
    bearer: Option<Seq<char>>,
)
    requires
        refs_ok(s),
    ensures
        refs_ok(
            spec_social_login_given(s, email, name, avatar, now, user_id, session_id, bearer).0,
        ),
{
    let after = spec_social_login_given(
        s,
        email,
        name,
        avatar,
        now,
        user_id,
        session_id,
        bearer,
    ).0;
    if after != s {
        let u = social_account(s, email, name, avatar, now, user_id);
        lemma_first_index_found(s.users, by_email(email), 0);
        match first_index(s.users, by_email(email)) {
            Some(i) => {
                assert(s.users[i].id == u.id);
            },
            None => {
                lemma_more_users_own_the_same(s.users, u, s.sessions, session_owner());
                lemma_more_users_own_the_same(s.users, u, s.csrf, csrf_owner());
                lemma_more_users_own_the_same(s.users, u, s.one_time, one_time_owner());
            },
        }
        assert(has_user(after.users, u.id));
        lemma_register_keeps_refs(
            after.users,
            s.sessions,
            new_session(session_id, u.id, bearer->0, now),
        );
    }
}

/// A forgotten-password request keeps integrity.
pub proof fn lemma_forgot_password_keeps_refs(
    s: AuthState,
    email: Seq<char>,
    now: u64,
    reset_id: Seq<char>,
    reset_token: Seq<char>,
)
    requires
        refs_ok(s),
    ensures
        refs_ok(spec_forgot_password(s, email, now, reset_id, reset_token).0),
{
    let after = spec_forgot_password(s, email, now, reset_id, reset_token).0;
    if after != s {
        lemma_first_index_found(s.users, by_email(email), 0);
        let i = first_index(s.users, by_email(email))->0;
        assert(has_user(s.users, s.users[i].id));
        lemma_kept_rows_are_owned(
            s.users,
            s.one_time,
            one_time_owner(),
            outlives(s.users[i].id, now),
        );
        lemma_new_row_is_owned(
            s.users,
            s.one_time.filter(outlives(s.users[i].id, now)),
            one_time_owner(),
            after.one_time.last(),
        );
    }
}

/// The accounts keep their ids where one of them, found by its id, is
/// replaced by a record with the same id.
proof fn lemma_update_by_id_keeps_ids(
    users: Seq<AuthUserView>,
    after: Seq<AuthUserView>,
    id: Seq<char>,
    u: AuthUserView,
)
    requires
        after == match first_index(users, by_id(id)) {
            Some(i) => users.update(i, u),
            None => users,
        },
        u.id == id,
    ensures
        after.len() == users.len(),
        forall|j: int| 0 <= j < users.len() ==> (#[trigger] after[j]).id == users[j].id,
{
    lemma_first_index_found(users, by_id(id), 0);
}

/// Consuming a single-use token keeps the owners of all tokens.
proof fn lemma_consume_keeps_owners(
    users: Seq<AuthUserView>,
    tokens: Seq<OneTimeTokenView>,
    token: Seq<char>,
    kind: TokenKind,
    now: u64,
)
    requires
        all_owned(users, tokens, one_time_owner()),
    ensures
        all_owned(users, spec_consume(tokens, token, kind, now).0, one_time_owner()),
{
    let after = spec_consume(tokens, token, kind, now).0;
    lemma_first_index_found(tokens, carrying(token), 0);
    assert forall|k: int| 0 <= k < tokens.len() implies one_time_owner()(#[trigger] after[k])
        == one_time_owner()(tokens[k]) by {}
    lemma_same_owners_stay_owned(users, tokens, after, one_time_owner());
}

/// A password reset keeps integrity, however it ends.
pub proof fn lemma_reset_password_keeps_refs(
    s: AuthState,
    token: Seq<char>,
    now: u64,
    new_hash: Option<Seq<char>>,
)
    requires
        refs_ok(s),
    ensures
        refs_ok(spec_reset_password_given(s, token, now, new_hash).0),
{
    let after = spec_reset_password_given(s, token, now, new_hash).0;
    if after != s {
        let (tokens, owner) = spec_consume(
            s.one_time,
            token,
            TokenKind::PasswordReset,
            now,
        );
        let user_id = owner->0;
        let i = first_index(s.users, by_id(user_id))->0;
        let u = AuthUserView { password_hash: new_hash->0, updated_at: now, ..s.users[i] };
        lemma_first_index_found(s.users, by_id(user_id), 0);
        lemma_update_by_id_keeps_ids(s.users, after.users, user_id, u);
        lemma_consume_keeps_owners(
            s.users,
            s.one_time,
            token,
            TokenKind::PasswordReset,
            now,
        );
        lemma_revoke_keeps_refs(s, SelectionView::User(user_id));
        lemma_same_ids_own_the_same(s.users, after.users, after.sessions, session_owner());
        lemma_same_ids_own_the_same(s.users, after.users, s.csrf, csrf_owner());
        lemma_same_ids_own_the_same(s.users, after.users, after.one_time, one_time_owner());
    }
}

/// An e-mail verification keeps integrity, however it ends.
pub proof fn lemma_verify_email_keeps_refs(s: AuthState, token: Seq<char>, now: u64)
    requires
        refs_ok(s),
    ensures
        refs_ok(spec_verify_email(s, token, now).0),
{
    let after = spec_verify_email(s, token, now).0;
    if after != s {
        let (tokens, owner) = spec_consume(
            s.one_time,
            token,
            TokenKind::EmailVerification,
            now,
        );
        let user_id = owner->0;
        lemma_first_index_found(s.users, by_id(user_id), 0);
        match first_index(s.users, by_id(user_id)) {
            Some(i) => {
                let u = AuthUserView { email_verified: true, updated_at: now, ..s.users[i] };
                lemma_update_by_id_keeps_ids(s.users, after.users, user_id, u);
            },
            None => {},
        }
        lemma_consume_keeps_owners(
            s.users,
            s.one_time,
            token,
            TokenKind::EmailVerification,
            now,
        );
        lemma_same_ids_own_the_same(s.users, after.users, s.sessions, session_owner());
        lemma_same_ids_own_the_same(s.users, after.users, s.csrf, csrf_owner());
        lemma_same_ids_own_the_same(s.users, after.users, after.one_time, one_time_owner());
    }
}

/// A change of password keeps integrity, however it ends.
pub proof fn lemma_change_password_keeps_refs(
    s: AuthState,
    user_id: Seq<char>,
    bearer: Seq<char>,
    verdict: Result<bool, AuthError>,
    new_hash: Option<Seq<char>>,
    now: u64,
)
    requires
        refs_ok(s),
    ensures
        refs_ok(spec_change_password_given(s, user_id, bearer, verdict, new_hash, now).0),
{
    let after = spec_change_password_given(s, user_id, bearer, verdict, new_hash, now).0;
    if after != s {
        let i = first_index(s.users, by_id(user_id))->0;
        let u = AuthUserView { password_hash: new_hash->0, updated_at: now, ..s.users[i] };
        lemma_first_index_found(s.users, by_id(user_id), 0);
        lemma_update_by_id_keeps_ids(s.users, after.users, user_id, u);
        lemma_revoke_keeps_refs(s, SelectionView::UserExcept(user_id, bearer));
        lemma_same_ids_own_the_same(s.users, after.users, after.sessions, session_owner());
        lemma_same_ids_own_the_same(s.users, after.users, s.csrf, csrf_owner());
        lemma_same_ids_own_the_same(s.users, after.users, s.one_time, one_time_owner());
    }
}

/// A profile update keeps integrity, however it ends.
pub proof fn lemma_profile_update_keeps_refs(
    s: AuthState,
    user_id: Seq<char>,
    name: Option<Seq<char>>,
    email: Option<Seq<char>>,
    now: u64,
)
    requires
        refs_ok(s),
    ensures
        refs_ok(spec_apply_profile_update(s, user_id, name, email, now).0),
{
    let after = spec_apply_profile_update(s, user_id, name, email, now).0;
    if after != s {
        lemma_first_index_found(s.users, by_id(user_id), 0);
        let i = first_index(s.users, by_id(user_id))->0;
        let u = with_profile(s.users[i], name, email, now);
        lemma_update_by_id_keeps_ids(s.users, after.users, user_id, u);
        lemma_same_ids_own_the_same(s.users, after.users, s.sessions, session_owner());
        lemma_same_ids_own_the_same(s.users, after.users, s.csrf, csrf_owner());
        lemma_same_ids_own_the_same(s.users, after.users, s.one_time, one_time_owner());
    }
}

/// Rows of other accounts are still owned once an account is removed.
proof fn lemma_others_stay_owned<T>(
    users: Seq<AuthUserView>,
    id: Seq<char>,
    rows: Seq<T>,
    owner: spec_fn(T) -> Seq<char>,
    keep: spec_fn(T) -> bool,
)
    requires
        users_wf(users),
        all_owned(users, rows, owner),
        forall|r: T| #[trigger] keep(r) ==> owner(r) != id,
    ensures
        all_owned(spec_remove(users, id), rows.filter(keep), owner),
{
    let after = spec_remove(users, id);
    let kept = rows.filter(keep);
    lemma_first_index_found(users, by_id(id), 0);
    assert forall|k: int| 0 <= k < kept.len() implies has_user(after, owner(#[trigger] kept[k])) by {
        rows.lemma_filter_contains_rev(keep, kept[k]);
        rows.lemma_filter_pred(keep, k);
        let j = choose|j: int| 0 <= j < rows.len() && rows[j] == kept[k];
        assert(has_user(users, owner(rows[j])));
        let w = choose|w: int| 0 <= w < users.len() && (#[trigger] users[w]).id == owner(rows[j]);
        match first_index(users, by_id(id)) {
            Some(i) => {
                assert(users[i].id == id);
                assert(w != i);
                let w2 = if w < i {
                    w
                } else {
                    w - 1
                };
                assert(after[w2] == users[w]);
                assert(after[w2].id == owner(kept[k]));
            },
            None => {
                assert(after[w].id == owner(kept[k]));
            },
        }
    }
}

/// Removing an account with all that belongs to it keeps integrity.
pub proof fn lemma_remove_account_keeps_refs(s: AuthState, user_id: Seq<char>)
    requires
        users_wf(s.users),
        refs_ok(s),
    ensures
        refs_ok(spec_remove_account(s, user_id)),
{
    lemma_others_stay_owned(
        s.users,
        user_id,
        s.sessions,
        session_owner(),
        |x: SessionView| x.user_id != user_id,
    );
    lemma_others_stay_owned(s.users, user_id, s.csrf, csrf_owner(), not_of(user_id));
    lemma_others_stay_owned(s.users, user_id, s.one_time, one_time_owner(), not_owned_by(user_id));
}

/// Handing out an anti-forgery token to an account that exists keeps
/// integrity.
pub proof fn lemma_csrf_issue_keeps_refs(
    s: AuthState,
    user_id: Seq<char>,
    now: u64,
    fresh_id: Seq<char>,
    fresh_token: Seq<char>,
)
    requires
        refs_ok(s),
        has_user(s.users, user_id),
        spec_issue_or_reuse(s.csrf, user_id, now, fresh_id, fresh_token) is Ok,
    ensures
        ({
            let (tokens, _, _) = spec_issue_or_reuse(
                s.csrf,
                user_id,
                now,
                fresh_id,
                fresh_token,
            )->Ok_0;
            refs_ok(AuthState { csrf: tokens, ..s })
        }),
{
    let (tokens, _, _) = spec_issue_or_reuse(s.csrf, user_id, now, fresh_id, fresh_token)->Ok_0;
    if tokens != s.csrf {
        lemma_kept_rows_are_owned(s.users, s.csrf, csrf_owner(), survives_purge(user_id, now));
        lemma_new_row_is_owned(
            s.users,
            s.csrf.filter(survives_purge(user_id, now)),
            csrf_owner(),
            tokens.last(),
        );
    }
}

} // verus!
