//! The session registry: one record per issued bearer token, so that a
//! user's sessions can be listed and revoked.
//!
//! A session is live while it is active and its expiry lies ahead; readers
//! check both.

use crate::search::{
    first_index,
    lemma_first_index_found,
    lemma_first_index_is,
    lemma_filter_step,
    lemma_first_index_none,
};
use crate::text::{copy_text_opt, same_text, text_opt};
use vstd::prelude::*;

verus! {

/// The lifetime of a session and of its bearer token, in seconds (24 hours).
pub const SESSION_TTL_SECS: u64 = 86_400;

/// A session record. Times are seconds since the Unix epoch.
#[derive(Debug)]
pub struct Session {
    pub id: String,
    pub user_id: String,
    pub token: String,
    pub expires_at: u64,
    pub created_at: u64,
    pub last_accessed: u64,
    pub user_agent: Option<String>,
    pub ip_address: Option<String>,
    pub is_active: bool,
}

/// The mathematical value of a session record.
pub struct SessionView {
    pub id: Seq<char>,
    pub user_id: Seq<char>,
    pub token: Seq<char>,
    pub expires_at: u64,
    pub created_at: u64,
    pub last_accessed: u64,
    pub user_agent: Option<Seq<char>>,
    pub ip_address: Option<Seq<char>>,
    pub is_active: bool,
}

impl View for Session {
    type V = SessionView;

    open spec fn view(&self) -> SessionView {
        SessionView {
            id: self.id@,
            user_id: self.user_id@,
            token: self.token@,
            expires_at: self.expires_at,
            created_at: self.created_at,
            last_accessed: self.last_accessed,
            user_agent: text_opt(self.user_agent),
            ip_address: text_opt(self.ip_address),
            is_active: self.is_active,
        }
    }
}

impl Clone for Session {
    fn clone(&self) -> (r: Self)
        ensures
            r == *self,
    {
        Session {
            id: self.id.clone(),
            user_id: self.user_id.clone(),
            token: self.token.clone(),
            expires_at: self.expires_at,
            created_at: self.created_at,
            last_accessed: self.last_accessed,
            user_agent: copy_text_opt(&self.user_agent),
            ip_address: copy_text_opt(&self.ip_address),
            is_active: self.is_active,
        }
    }
}

/// The session that a login at `now` opens.
pub open spec fn new_session(id: Seq<char>, user_id: Seq<char>, token: Seq<char>, now: u64) -> SessionView {
    SessionView {
        id,
        user_id,
        token,
        expires_at: (now + SESSION_TTL_SECS) as u64,
        created_at: now,
        last_accessed: now,
        user_agent: None,
        ip_address: None,
        is_active: true,
    }
}

/// A session is live at `now` while it is active and not yet expired.
pub open spec fn is_live(s: SessionView, now: u64) -> bool {
    s.is_active && now < s.expires_at
}

/// The session, revoked.
pub open spec fn revoked(s: SessionView) -> SessionView {
    SessionView { is_active: false, ..s }
}

/// The predicate "carries this token".
pub open spec fn by_token(token: Seq<char>) -> spec_fn(SessionView) -> bool {
    |s: SessionView| s.token == token
}

/// Which sessions a revocation reaches.
pub enum Selection<'a> {
    /// The session with this token.
    Token(&'a str),
    /// Every session of this user.
    User(&'a str),
    /// Every session of this user but the one with this token.
    UserExcept(&'a str, &'a str),
}

/// The mathematical value of a [`Selection`].
pub enum SelectionView {
    Token(Seq<char>),
    User(Seq<char>),
    UserExcept(Seq<char>, Seq<char>),
}

impl<'a> View for Selection<'a> {
    type V = SelectionView;

    open spec fn view(&self) -> SelectionView {
        match *self {
            Selection::Token(token) => SelectionView::Token(token@),
            Selection::User(user_id) => SelectionView::User(user_id@),
            Selection::UserExcept(user_id, keep) => SelectionView::UserExcept(user_id@, keep@),
        }
    }
}

/// Whether a revocation reaches the session.
pub open spec fn selects(sel: SelectionView, s: SessionView) -> bool {
    match sel {
        SelectionView::Token(token) => s.token == token,
        SelectionView::User(user_id) => s.user_id == user_id,
        SelectionView::UserExcept(user_id, keep) => s.user_id == user_id && s.token != keep,
    }
}

/// What a revocation does: every session it reaches becomes inactive, all
/// else stays as it is.
pub open spec fn spec_revoke(sessions: Seq<SessionView>, sel: SelectionView) -> Seq<SessionView> {
    Seq::new(
        sessions.len(),
        |i: int|
            if selects(sel, sessions[i]) {
                revoked(sessions[i])
            } else {
                sessions[i]
            },
    )
}

/// No two sessions carry the same token.
pub open spec fn sessions_wf(sessions: Seq<SessionView>) -> bool {
    forall|i: int, j: int|
        0 <= i < j < sessions.len() ==> (#[trigger] sessions[i]).token != (
        #[trigger] sessions[j]).token
}

/// What registering a session does: it replaces the session that carries
/// the same token, if there is one, and is appended otherwise.
pub open spec fn spec_register(sessions: Seq<SessionView>, s: SessionView) -> Seq<SessionView> {
    match first_index(sessions, by_token(s.token)) {
        Some(i) => sessions.update(i, s),
        None => sessions.push(s),
    }
}

/// The live sessions of a user at `now`, in the order of the registry.
pub open spec fn spec_list_active(sessions: Seq<SessionView>, user_id: Seq<char>, now: u64) -> Seq<
    SessionView,
> {
    sessions.filter(|s: SessionView| s.user_id == user_id && is_live(s, now))
}

/// What is left once every session of a user is dropped.
pub open spec fn spec_without_user(sessions: Seq<SessionView>, user_id: Seq<char>) -> Seq<
    SessionView,
> {
    sessions.filter(|s: SessionView| s.user_id != user_id)
}

/// A revocation keeps the registry well-formed.
pub proof fn lemma_revoke_keeps_wf(sessions: Seq<SessionView>, sel: SelectionView)
    requires
        sessions_wf(sessions),
    ensures
        sessions_wf(spec_revoke(sessions, sel)),
{
    let t = spec_revoke(sessions, sel);
    assert forall|i: int, j: int| 0 <= i < j < t.len() implies (#[trigger] t[i]).token != (
    #[trigger] t[j]).token by {
        assert(sessions[i].token != sessions[j].token);
    }
}

/// Registering a session keeps the registry well-formed.
pub proof fn lemma_register_keeps_wf(sessions: Seq<SessionView>, s: SessionView)
    requires
        sessions_wf(sessions),
    ensures
        sessions_wf(spec_register(sessions, s)),
{
    let t = spec_register(sessions, s);
    lemma_first_index_found(sessions, by_token(s.token), 0);
    match first_index(sessions, by_token(s.token)) {
        Some(k) => {
            assert(by_token(s.token)(sessions[k]));
            assert forall|i: int, j: int| 0 <= i < j < t.len() implies (#[trigger] t[i]).token != (
            #[trigger] t[j]).token by {
                assert(sessions[i].token != sessions[j].token);
            }
        },
        None => {
            assert forall|i: int, j: int| 0 <= i < j < t.len() implies (#[trigger] t[i]).token != (
            #[trigger] t[j]).token by {
                if j < sessions.len() {
                    assert(sessions[i].token != sessions[j].token);
                } else {
                    assert(!by_token(s.token)(sessions[i]));
                }
            }
        },
    }
}

/// A filtered registry is well-formed if the registry was.
pub proof fn lemma_filter_keeps_wf(sessions: Seq<SessionView>, p: spec_fn(SessionView) -> bool)
    requires
        sessions_wf(sessions),
    ensures
        sessions_wf(sessions.filter(p)),
    decreases sessions.len(),
{
    reveal(Seq::filter);
    if sessions.len() > 0 {
        let init = sessions.drop_last();
        assert forall|i: int, j: int| 0 <= i < j < init.len() implies (#[trigger] init[i]).token
            != (#[trigger] init[j]).token by {
            assert(sessions[i].token != sessions[j].token);
        }
        lemma_filter_keeps_wf(init, p);
        let f = init.filter(p);
        if p(sessions.last()) {
            let t = f.push(sessions.last());
            assert forall|i: int, j: int| 0 <= i < j < t.len() implies (#[trigger] t[i]).token != (
            #[trigger] t[j]).token by {
                if j < f.len() {
                    assert(f[i].token != f[j].token);
                } else {
                    init.lemma_filter_contains_rev(p, f[i]);
                    let k = choose|k: int| 0 <= k < init.len() && init[k] == f[i];
                    assert(sessions[k].token != sessions[sessions.len() - 1].token);
                }
            }
        }
    }
}

/// The registry of sessions.
pub struct SessionRegistry {
    pub sessions: Vec<Session>,
}

impl View for SessionRegistry {
    type V = Seq<SessionView>;

    open spec fn view(&self) -> Seq<SessionView> {
        self.sessions@.map_values(|s: Session| s@)
    }
}

/// Whether a revocation reaches the session.
fn reaches(sel: &Selection, s: &Session) -> (r: bool)
    ensures
        r == selects(sel@, s@),
{
    match sel {
        Selection::Token(token) => same_text(s.token.as_str(), token),
        Selection::User(user_id) => same_text(s.user_id.as_str(), user_id),
        Selection::UserExcept(user_id, keep) => same_text(s.user_id.as_str(), user_id)
            && !same_text(s.token.as_str(), keep),
    }
}

impl SessionRegistry {
    /// The registry's invariant: tokens are unique.
    pub open spec fn wf(&self) -> bool {
        sessions_wf(self@)
    }

    /// An empty registry.
    pub fn new() -> (r: SessionRegistry)
        ensures
            r@ == Seq::<SessionView>::empty(),
            r.wf(),
    {
        let r = SessionRegistry { sessions: Vec::new() };
        assert(r@ =~= Seq::<SessionView>::empty());
        r
    }

    /// Whether the invariant holds of records that came from outside, such
    /// as rows loaded from a database.
    pub fn is_well_formed(&self) -> (r: bool)
        ensures
            r == self.wf(),
    {
        let n = self.sessions.len();
        let mut j: usize = 0;
        while j < n
            invariant
                n == self.sessions@.len(),
                j <= n,
                forall|a: int, b: int|
                    0 <= a < b < j ==> (#[trigger] self@[a]).token != (#[trigger] self@[b]).token,
            decreases n - j,
        {
            let mut i: usize = 0;
            while i < j
                invariant
                    n == self.sessions@.len(),
                    i <= j < n,
                    forall|a: int| 0 <= a < i ==> (#[trigger] self@[a]).token != self@[j as int].token,
                decreases j - i,
            {
                if same_text(self.sessions[i].token.as_str(), self.sessions[j].token.as_str()) {
                    assert(self@[i as int].token == self@[j as int].token);
                    return false;
                }
                i += 1;
            }
            j += 1;
        }
        true
    }

    /// The number of sessions on record, live or not.
    pub fn len(&self) -> (r: usize)
        ensures
            r == self@.len(),
    {
        self.sessions.len()
    }

    /// The position of the session that carries this token.
    pub fn position_by_token(&self, token: &str) -> (r: Option<usize>)
        ensures
            match r {
                Some(i) => first_index(self@, by_token(token@)) == Some(i as int) && i
                    < self@.len(),
                None => first_index(self@, by_token(token@)) is None,
            },
    {
        let n = self.sessions.len();
        let mut i: usize = 0;
        while i < n
            invariant
                n == self.sessions@.len(),
                i <= n,
                forall|k: int| 0 <= k < i ==> !by_token(token@)(#[trigger] self@[k]),
            decreases n - i,
        {
            if same_text(self.sessions[i].token.as_str(), token) {
                proof {
                    assert(by_token(token@)(self@[i as int]));
                    lemma_first_index_is(self@, by_token(token@), 0, i as int);
                }
                return Some(i);
            }
            i += 1;
        }
        proof {
            lemma_first_index_none(self@, by_token(token@), 0);
        }
        None
    }

    /// Registers the session that a login at `now` opens for `user_id` with
    /// the bearer token `token`; it expires one session lifetime later. A
    /// session that already carries the token is replaced.
    pub fn create(&mut self, id: String, user_id: &str, token: &str, now: u64) -> (r: Session)
        requires
            old(self).wf(),
            now <= crate::lockout::MAX_TIMESTAMP,
        ensures
            final(self).wf(),
            r@ == new_session(id@, user_id@, token@, now),
            final(self)@ == spec_register(old(self)@, r@),
    {
        let session = Session {
            id,
            user_id: user_id.to_owned(),
            token: token.to_owned(),
            expires_at: now + SESSION_TTL_SECS,
            created_at: now,
            last_accessed: now,
            user_agent: None,
            ip_address: None,
            is_active: true,
        };
        let copy = session.clone();
        proof {
            lemma_register_keeps_wf(self@, session@);
        }
        match self.position_by_token(token) {
            Some(i) => {
                self.sessions.set(i, session);
                assert(self@ =~= old(self)@.update(i as int, session@));
            },
            None => {
                self.sessions.push(session);
                assert(self@ =~= old(self)@.push(session@));
            },
        }
        copy
    }

    /// Whether the session with this token is live at `now`.
    pub fn is_live(&self, token: &str, now: u64) -> (r: bool)
        ensures
            r == match first_index(self@, by_token(token@)) {
                Some(i) => is_live(self@[i], now),
                None => false,
            },
    {
        match self.position_by_token(token) {
            Some(i) => self.sessions[i].is_active && now < self.sessions[i].expires_at,
            None => false,
        }
    }

    /// The live sessions of `user_id` at `now`: active and not expired.
    pub fn list_active(&self, user_id: &str, now: u64) -> (r: Vec<Session>)
        ensures
            r@.map_values(|s: Session| s@) == spec_list_active(self@, user_id@, now),
    {
        let ghost p = |s: SessionView| s.user_id == user_id@ && is_live(s, now);
        let mut out: Vec<Session> = Vec::new();
        let n = self.sessions.len();
        let mut i: usize = 0;
        assert(self@.take(0).filter(p) =~= Seq::<SessionView>::empty()) by {
            reveal(Seq::filter);
        }
        while i < n
            invariant
                n == self.sessions@.len(),
                i <= n,
                p == (|s: SessionView| s.user_id == user_id@ && is_live(s, now)),
                out@.map_values(|s: Session| s@) =~= self@.take(i as int).filter(p),
            decreases n - i,
        {
            let s = &self.sessions[i];
            proof {
                lemma_filter_step(self@, p, i as int);
            }
            if same_text(s.user_id.as_str(), user_id) && s.is_active && now < s.expires_at {
                out.push(s.clone());
            }
            i += 1;
        }
        assert(self@.take(n as int) =~= self@);
        out
    }

    /// Revokes the sessions that `sel` reaches.
    pub fn revoke_selected(&mut self, sel: &Selection)
        requires
            old(self).wf(),
        ensures
            final(self).wf(),
            final(self)@ == spec_revoke(old(self)@, sel@),
    {
        let n = self.sessions.len();
        let mut i: usize = 0;
        while i < n
            invariant
                n == self.sessions@.len(),
                n == old(self)@.len(),
                i <= n,
                forall|k: int|
                    0 <= k < i ==> (#[trigger] self.sessions@[k])@ == spec_revoke(
                        old(self)@,
                        sel@,
                    )[k],
                forall|k: int|
                    i <= k < n ==> (#[trigger] self.sessions@[k])@ == old(self).sessions@[k]@,
            decreases n - i,
        {
            let ghost before = self.sessions@;
            if reaches(sel, &self.sessions[i]) {
                self.sessions[i].is_active = false;
            }
            assert(forall|k: int| 0 <= k < n && k != i ==> self.sessions@[k] == before[k]);
            i += 1;
        }
        proof {
            assert(self@ =~= spec_revoke(old(self)@, sel@));
            lemma_revoke_keeps_wf(old(self)@, sel@);
        }
    }

    /// Marks the session with this token inactive.
    pub fn revoke(&mut self, token: &str)
        requires
            old(self).wf(),
        ensures
            final(self).wf(),
            final(self)@ == spec_revoke(old(self)@, SelectionView::Token(token@)),
    {
        self.revoke_selected(&Selection::Token(token));
    }

    /// Marks every session of `user_id` inactive.
    pub fn revoke_all(&mut self, user_id: &str)
        requires
            old(self).wf(),
        ensures
            final(self).wf(),
            final(self)@ == spec_revoke(old(self)@, SelectionView::User(user_id@)),
    {
        self.revoke_selected(&Selection::User(user_id));
    }

    /// Marks every session of `user_id` inactive but the one that carries
    /// `keep_token`.
    pub fn revoke_all_except(&mut self, user_id: &str, keep_token: &str)
        requires
            old(self).wf(),
        ensures
            final(self).wf(),
            final(self)@ == spec_revoke(
                old(self)@,
                SelectionView::UserExcept(user_id@, keep_token@),
            ),
    {
        self.revoke_selected(&Selection::UserExcept(user_id, keep_token));
    }

    /// Drops every session of `user_id` from the registry.
    pub fn remove_user(&mut self, user_id: &str)
        requires
            old(self).wf(),
        ensures
            final(self).wf(),
            final(self)@ == spec_without_user(old(self)@, user_id@),
    {
        let ghost p = |s: SessionView| s.user_id != user_id@;
        let mut kept: Vec<Session> = Vec::new();
        let n = self.sessions.len();
        let mut i: usize = 0;
        assert(self@.take(0).filter(p) =~= Seq::<SessionView>::empty()) by {
            reveal(Seq::filter);
        }
        while i < n
            invariant
                n == self.sessions@.len(),
                *self == *old(self),
                i <= n,
                p == (|s: SessionView| s.user_id != user_id@),
                kept@.map_values(|s: Session| s@) =~= self@.take(i as int).filter(p),
            decreases n - i,
        {
            let s = &self.sessions[i];
            proof {
                lemma_filter_step(self@, p, i as int);
            }
            if !same_text(s.user_id.as_str(), user_id) {
                kept.push(s.clone());
            }
            i += 1;
        }
        proof {
            assert(self@.take(n as int) =~= self@);
            lemma_filter_keeps_wf(old(self)@, p);
        }
        self.sessions = kept;
    }
}

/// After every session of a user but one is revoked, the live sessions of
/// that user are exactly those that were live and carry the token that was
/// kept; in a well-formed registry that is one session at most.
pub proof fn lemma_only_kept_session_stays_live(
    sessions: Seq<SessionView>,
    user_id: Seq<char>,
    keep: Seq<char>,
    now: u64,
)
    requires
        sessions_wf(sessions),
    ensures
        ({
            let after = spec_revoke(sessions, SelectionView::UserExcept(user_id, keep));
            let live = spec_list_active(after, user_id, now);
            &&& live.len() <= 1
            &&& forall|k: int| 0 <= k < live.len() ==> (#[trigger] live[k]).token == keep
            &&& forall|i: int|
                0 <= i < sessions.len() && (#[trigger] sessions[i]).token == keep ==> after[i]
                    == sessions[i]
            &&& forall|i: int|
                0 <= i < sessions.len() && (#[trigger] sessions[i]).user_id == user_id
                    && sessions[i].token != keep ==> !after[i].is_active
        }),
{
    let after = spec_revoke(sessions, SelectionView::UserExcept(user_id, keep));
    let p = |s: SessionView| s.user_id == user_id && is_live(s, now);
    let live = after.filter(p);
    lemma_revoke_keeps_wf(sessions, SelectionView::UserExcept(user_id, keep));
    lemma_filter_keeps_wf(after, p);
    assert forall|k: int| 0 <= k < live.len() implies (#[trigger] live[k]).token == keep by {
        after.lemma_filter_pred(p, k);
        assert(p(live[k]));
        after.lemma_filter_contains_rev(p, live[k]);
        let j = choose|j: int| 0 <= j < after.len() && after[j] == live[k];
        assert(after[j].is_active);
        assert(!selects(SelectionView::UserExcept(user_id, keep), sessions[j]));
    }
    if live.len() >= 2 {
        assert(live[0].token != live[1].token);
    }
}

/// After every session of a user is revoked, none of them is live.
pub proof fn lemma_revoke_all_leaves_none_live(
    sessions: Seq<SessionView>,
    user_id: Seq<char>,
    now: u64,
)
    ensures
        spec_list_active(spec_revoke(sessions, SelectionView::User(user_id)), user_id, now)
            == Seq::<SessionView>::empty(),
{
    let t = spec_revoke(sessions, SelectionView::User(user_id));
    let p = |s: SessionView| s.user_id == user_id && is_live(s, now);
    let f = t.filter(p);
    if f.len() > 0 {
        t.lemma_filter_contains_rev(p, f[0]);
        let k = choose|k: int| 0 <= k < t.len() && t[k] == f[0];
        t.lemma_filter_pred(p, 0);
        assert(p(f[0]));
        assert(false);
    }
    assert(f =~= Seq::<SessionView>::empty());
}

} // verus!
