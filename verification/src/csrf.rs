//! The anti-forgery token manager: short-lived tokens per user, checked on
//! every request that changes state, independently of the bearer token.

use crate::error::AuthError;
use crate::lockout::MAX_TIMESTAMP;
use crate::search::{
    distinct_keys,
    first_index,
    last_index,
    lemma_filter_keeps_distinct,
    lemma_filter_step,
    lemma_first_index_found,
    lemma_first_index_is,
    lemma_first_index_none,
    lemma_last_index_is,
    lemma_last_index_none,
};
use crate::text::same_text;
use vstd::prelude::*;

verus! {

/// The lifetime of an anti-forgery token in seconds (one hour).
pub const CSRF_TTL_SECS: u64 = 3_600;

/// An anti-forgery token record. Times are seconds since the Unix epoch.
#[derive(Debug)]
pub struct CsrfToken {
    pub id: String,
    pub user_id: String,
    pub token: String,
    pub expires_at: u64,
    pub created_at: u64,
}

/// The mathematical value of an anti-forgery token record.
pub struct CsrfTokenView {
    pub id: Seq<char>,
    pub user_id: Seq<char>,
    pub token: Seq<char>,
    pub expires_at: u64,
    pub created_at: u64,
}

impl View for CsrfToken {
    type V = CsrfTokenView;

    open spec fn view(&self) -> CsrfTokenView {
        CsrfTokenView {
            id: self.id@,
            user_id: self.user_id@,
            token: self.token@,
            expires_at: self.expires_at,
            created_at: self.created_at,
        }
    }
}

impl Clone for CsrfToken {
    fn clone(&self) -> (r: Self)
        ensures
            r == *self,
    {
        CsrfToken {
            id: self.id.clone(),
            user_id: self.user_id.clone(),
            token: self.token.clone(),
            expires_at: self.expires_at,
            created_at: self.created_at,
        }
    }
}

/// The record of a token issued at `now`.
pub open spec fn new_csrf_token(id: Seq<char>, user_id: Seq<char>, token: Seq<char>, now: u64) -> CsrfTokenView {
    CsrfTokenView {
        id,
        user_id,
        token,
        expires_at: (now + CSRF_TTL_SECS) as u64,
        created_at: now,
    }
}

/// The predicate "belongs to this user and has not expired at `now`".
pub open spec fn current_for(user_id: Seq<char>, now: u64) -> spec_fn(CsrfTokenView) -> bool {
    |t: CsrfTokenView| t.user_id == user_id && now < t.expires_at
}

/// The predicate "is not an expired token of this user": what a purge keeps.
pub open spec fn survives_purge(user_id: Seq<char>, now: u64) -> spec_fn(CsrfTokenView) -> bool {
    |t: CsrfTokenView| !(t.user_id == user_id && t.expires_at <= now)
}

/// The predicate "has this token text".
pub open spec fn with_text(token: Seq<char>) -> spec_fn(CsrfTokenView) -> bool {
    |t: CsrfTokenView| t.token == token
}

/// The token text of a record.
pub open spec fn text_of() -> spec_fn(CsrfTokenView) -> Seq<char> {
    |t: CsrfTokenView| t.token
}

/// The predicate "belongs to another user".
pub open spec fn not_of(user_id: Seq<char>) -> spec_fn(CsrfTokenView) -> bool {
    |t: CsrfTokenView| t.user_id != user_id
}

/// A token is valid for a user at `now` exactly if some record matches both
/// the user and the token and has its expiry ahead.
pub open spec fn spec_validate(
    tokens: Seq<CsrfTokenView>,
    user_id: Seq<char>,
    token: Seq<char>,
    now: u64,
) -> bool {
    exists|i: int|
        0 <= i < tokens.len() && (#[trigger] tokens[i]).user_id == user_id && tokens[i].token
            == token && now < tokens[i].expires_at
}

/// What asking for a token does. The most recently issued token of the user
/// that has not expired is handed out again, with its own expiry, and the
/// store stays as it is. Where there is none, the user's expired tokens are
/// purged and a new token is stored, valid for one lifetime; a new token
/// whose text is on record already is refused with `Internal`, and nothing
/// changes.
pub open spec fn spec_issue_or_reuse(
    tokens: Seq<CsrfTokenView>,
    user_id: Seq<char>,
    now: u64,
    fresh_id: Seq<char>,
    fresh_token: Seq<char>,
) -> Result<(Seq<CsrfTokenView>, Seq<char>, u64), AuthError> {
    match last_index(tokens, current_for(user_id, now)) {
        Some(i) => Ok((tokens, tokens[i].token, tokens[i].expires_at)),
        None => if first_index(tokens, with_text(fresh_token)) is Some {
            Err(AuthError::Internal)
        } else {
            Ok(
                (
                    tokens.filter(survives_purge(user_id, now)).push(
                        new_csrf_token(fresh_id, user_id, fresh_token, now),
                    ),
                    fresh_token,
                    (now + CSRF_TTL_SECS) as u64,
                ),
            )
        },
    }
}

/// The value of what asking for a token returns.
pub open spec fn issued_view(r: Result<(String, u64), AuthError>) -> Result<
    (Seq<char>, u64),
    AuthError,
> {
    match r {
        Ok((t, e)) => Ok((t@, e)),
        Err(e) => Err(e),
    }
}

/// The store of anti-forgery tokens.
pub struct CsrfTokenManager {
    pub tokens: Vec<CsrfToken>,
}

impl View for CsrfTokenManager {
    type V = Seq<CsrfTokenView>;

    open spec fn view(&self) -> Seq<CsrfTokenView> {
        self.tokens@.map_values(|t: CsrfToken| t@)
    }
}

impl CsrfTokenManager {
    /// The store's invariant: token texts are unique.
    pub open spec fn wf(&self) -> bool {
        distinct_keys(self@, text_of())
    }

    /// An empty store.
    pub fn new() -> (r: CsrfTokenManager)
        ensures
            r@ == Seq::<CsrfTokenView>::empty(),
            r.wf(),
    {
        let r = CsrfTokenManager { tokens: Vec::new() };
        assert(r@ =~= Seq::<CsrfTokenView>::empty());
        r
    }

    /// Whether the invariant holds of records that came from outside, such
    /// as rows loaded from a database.
    pub fn is_well_formed(&self) -> (r: bool)
        ensures
            r == self.wf(),
    {
        let n = self.tokens.len();
        let mut j: usize = 0;
        while j < n
            invariant
                n == self.tokens@.len(),
                j <= n,
                forall|a: int, b: int|
                    0 <= a < b < j ==> text_of()(#[trigger] self@[a]) != text_of()(
                        #[trigger] self@[b],
                    ),
            decreases n - j,
        {
            let mut i: usize = 0;
            while i < j
                invariant
                    n == self.tokens@.len(),
                    i <= j < n,
                    forall|a: int|
                        0 <= a < i ==> text_of()(#[trigger] self@[a]) != text_of()(self@[j as int]),
                decreases j - i,
            {
                if same_text(self.tokens[i].token.as_str(), self.tokens[j].token.as_str()) {
                    assert(text_of()(self@[i as int]) == text_of()(self@[j as int]));
                    return false;
                }
                i += 1;
            }
            j += 1;
        }
        true
    }

    /// Whether a token text is on record, for whatever user.
    pub fn has_text(&self, token: &str) -> (r: bool)
        ensures
            r == (first_index(self@, with_text(token@)) is Some),
    {
        let n = self.tokens.len();
        let mut i: usize = 0;
        while i < n
            invariant
                n == self.tokens@.len(),
                i <= n,
                forall|k: int| 0 <= k < i ==> !with_text(token@)(#[trigger] self@[k]),
            decreases n - i,
        {
            if same_text(self.tokens[i].token.as_str(), token) {
                proof {
                    assert(with_text(token@)(self@[i as int]));
                    lemma_first_index_is(self@, with_text(token@), 0, i as int);
                }
                return true;
            }
            i += 1;
        }
        proof {
            lemma_first_index_none(self@, with_text(token@), 0);
        }
        false
    }

    /// The number of tokens on record, expired or not.
    pub fn len(&self) -> (r: usize)
        ensures
            r == self@.len(),
    {
        self.tokens.len()
    }

    /// Whether `token` is valid for `user_id` at `now`.
    pub fn validate(&self, user_id: &str, token: &str, now: u64) -> (r: bool)
        ensures
            r == spec_validate(self@, user_id@, token@, now),
    {
        let n = self.tokens.len();
        let mut i: usize = 0;
        while i < n
            invariant
                n == self.tokens@.len(),
                i <= n,
                forall|k: int|
                    0 <= k < i ==> !((#[trigger] self@[k]).user_id == user_id@ && self@[k].token
                        == token@ && now < self@[k].expires_at),
            decreases n - i,
        {
            let t = &self.tokens[i];
            if same_text(t.user_id.as_str(), user_id) && same_text(t.token.as_str(), token) && now
                < t.expires_at {
                assert(self@[i as int].user_id == user_id@);
                return true;
            }
            i += 1;
        }
        false
    }

    /// The position of the most recently issued token of `user_id` that has
    /// not expired at `now`.
    pub fn position_of_current(&self, user_id: &str, now: u64) -> (r: Option<usize>)
        ensures
            match r {
                Some(i) => last_index(self@, current_for(user_id@, now)) == Some(i as int) && i
                    < self@.len(),
                None => last_index(self@, current_for(user_id@, now)) is None,
            },
    {
        let n = self.tokens.len();
        let mut i: usize = n;
        while i > 0
            invariant
                n == self.tokens@.len(),
                i <= n,
                forall|k: int| i <= k < n ==> !current_for(user_id@, now)(#[trigger] self@[k]),
            decreases i,
        {
            i -= 1;
            let t = &self.tokens[i];
            if same_text(t.user_id.as_str(), user_id) && now < t.expires_at {
                proof {
                    assert(current_for(user_id@, now)(self@[i as int]));
                    lemma_last_index_is(self@, current_for(user_id@, now), n as int, i as int);
                }
                return Some(i);
            }
        }
        proof {
            lemma_last_index_none(self@, current_for(user_id@, now), n as int);
        }
        None
    }

    /// Drops the tokens of `user_id` that have expired at `now`.
    pub fn purge_expired(&mut self, user_id: &str, now: u64)
        ensures
            final(self)@ == old(self)@.filter(survives_purge(user_id@, now)),
            old(self).wf() ==> final(self).wf(),
    {
        let ghost p = survives_purge(user_id@, now);
        let mut kept: Vec<CsrfToken> = Vec::new();
        let n = self.tokens.len();
        let mut i: usize = 0;
        assert(self@.take(0).filter(p) =~= Seq::<CsrfTokenView>::empty()) by {
            reveal(Seq::filter);
        }
        while i < n
            invariant
                n == self.tokens@.len(),
                *self == *old(self),
                i <= n,
                p == survives_purge(user_id@, now),
                kept@.map_values(|t: CsrfToken| t@) =~= self@.take(i as int).filter(p),
            decreases n - i,
        {
            let t = &self.tokens[i];
            proof {
                lemma_filter_step(self@, p, i as int);
            }
            if !(same_text(t.user_id.as_str(), user_id) && t.expires_at <= now) {
                kept.push(t.clone());
            }
            i += 1;
        }
        proof {
            assert(self@.take(n as int) =~= self@);
            if old(self).wf() {
                lemma_filter_keeps_distinct(old(self)@, text_of(), p);
            }
        }
        self.tokens = kept;
    }

    /// Drops every token of `user_id`.
    pub fn remove_user(&mut self, user_id: &str)
        ensures
            final(self)@ == old(self)@.filter(not_of(user_id@)),
            old(self).wf() ==> final(self).wf(),
    {
        let ghost p = not_of(user_id@);
        let mut kept: Vec<CsrfToken> = Vec::new();
        let n = self.tokens.len();
        let mut i: usize = 0;
        assert(self@.take(0).filter(p) =~= Seq::<CsrfTokenView>::empty()) by {
            reveal(Seq::filter);
        }
        while i < n
            invariant
                n == self.tokens@.len(),
                *self == *old(self),
                i <= n,
                p == not_of(user_id@),
                kept@.map_values(|t: CsrfToken| t@) =~= self@.take(i as int).filter(p),
            decreases n - i,
        {
            let t = &self.tokens[i];
            proof {
                lemma_filter_step(self@, p, i as int);
            }
            if !same_text(t.user_id.as_str(), user_id) {
                kept.push(t.clone());
            }
            i += 1;
        }
        proof {
            assert(self@.take(n as int) =~= self@);
            if old(self).wf() {
                lemma_filter_keeps_distinct(old(self)@, text_of(), p);
            }
        }
        self.tokens = kept;
    }

    /// Hands out an anti-forgery token for `user_id` at `now`, with its
    /// expiry: the user's current token if there is one, else a new record
    /// made of `fresh_id` and `fresh_token`, stored after the user's expired
    /// tokens are purged.
    pub fn issue_or_reuse(
        &mut self,
        user_id: &str,
        now: u64,
        fresh_id: String,
        fresh_token: String,
    ) -> (r: Result<(String, u64), AuthError>)
        requires
            old(self).wf(),
            now <= MAX_TIMESTAMP,
        ensures
            final(self).wf(),
            match spec_issue_or_reuse(old(self)@, user_id@, now, fresh_id@, fresh_token@) {
                Ok((tokens, token, expires_at)) => final(self)@ == tokens && issued_view(r) == Ok::<
                    (Seq<char>, u64),
                    AuthError,
                >((token, expires_at)),
                Err(e) => final(self)@ == old(self)@ && issued_view(r) == Err::<
                    (Seq<char>, u64),
                    AuthError,
                >(e),
            },
    {
        match self.position_of_current(user_id, now) {
            Some(i) => Ok((self.tokens[i].token.clone(), self.tokens[i].expires_at)),
            None => {
                if self.has_text(fresh_token.as_str()) {
                    return Err(AuthError::Internal);
                }
                self.purge_expired(user_id, now);
                let out = fresh_token.clone();
                let record = CsrfToken {
                    id: fresh_id,
                    user_id: user_id.to_owned(),
                    token: fresh_token,
                    expires_at: now + CSRF_TTL_SECS,
                    created_at: now,
                };
                let ghost before = self@;
                proof {
                    lemma_first_index_found(old(self)@, with_text(record@.token), 0);
                    let after = before.push(record@);
                    assert forall|a: int, b: int| 0 <= a < b < after.len() implies text_of()(
                        #[trigger] after[a],
                    ) != text_of()(#[trigger] after[b]) by {
                        if b < before.len() {
                            assert(text_of()(before[a]) != text_of()(before[b]));
                        } else {
                            old(self)@.lemma_filter_contains_rev(
                                survives_purge(user_id@, now),
                                before[a],
                            );
                            let k = choose|k: int|
                                0 <= k < old(self)@.len() && old(self)@[k] == before[a];
                            assert(!with_text(record@.token)(old(self)@[k]));
                        }
                    }
                }
                self.tokens.push(record);
                assert(self@ =~= before.push(record@));
                Ok((out, now + CSRF_TTL_SECS))
            },
        }
    }
}

/// A token that was just handed out is valid for its user until it expires.
pub proof fn lemma_issued_token_validates(
    tokens: Seq<CsrfTokenView>,
    user_id: Seq<char>,
    now: u64,
    fresh_id: Seq<char>,
    fresh_token: Seq<char>,
    later: u64,
)
    requires
        now <= MAX_TIMESTAMP,
        now <= later,
        spec_issue_or_reuse(tokens, user_id, now, fresh_id, fresh_token) matches Ok(issued)
            && later < issued.2,
    ensures
        ({
            let (after, token, expires_at) = spec_issue_or_reuse(
                tokens,
                user_id,
                now,
                fresh_id,
                fresh_token,
            )->Ok_0;
            spec_validate(after, user_id, token, later)
        }),
{
    let (after, token, expires_at) = spec_issue_or_reuse(
        tokens,
        user_id,
        now,
        fresh_id,
        fresh_token,
    )->Ok_0;
    match last_index(tokens, current_for(user_id, now)) {
        Some(i) => {
            crate::search::lemma_last_index_found(
                tokens,
                current_for(user_id, now),
                tokens.len() as int,
            );
            assert(after[i].user_id == user_id);
        },
        None => {
            let last = after.len() - 1;
            assert(after[last] == new_csrf_token(fresh_id, user_id, fresh_token, now));
            assert(after[last].user_id == user_id);
        },
    }
}

/// A token is never valid at or after its expiry, and never for a user
/// other than the one it was issued to.
pub proof fn lemma_validate_needs_match(
    tokens: Seq<CsrfTokenView>,
    user_id: Seq<char>,
    token: Seq<char>,
    now: u64,
)
    requires
        forall|i: int|
            0 <= i < tokens.len() && (#[trigger] tokens[i]).token == token ==> tokens[i].user_id
                != user_id || tokens[i].expires_at <= now,
    ensures
        !spec_validate(tokens, user_id, token, now),
{
}

} // verus!
