//! Single-use tokens for e-mail verification and password reset.
//!
//! A token is consumed at most once. Why a token is refused (unknown, used,
//! expired, of the other kind) is never told.

use crate::error::AuthError;
use crate::lockout::MAX_TIMESTAMP;
use crate::search::{
    distinct_keys,
    first_index,
    lemma_filter_keeps_distinct,
    lemma_filter_step,
    lemma_first_index_found,
    lemma_first_index_is,
    lemma_first_index_none,
    lemma_first_index_update,
};
use crate::text::{copy_text_opt, same_text, text_opt};
use vstd::prelude::*;

verus! {

/// The lifetime of an e-mail verification token in seconds (24 hours).
pub const VERIFICATION_TTL_SECS: u64 = 86_400;

/// The lifetime of a password reset token in seconds (one hour).
pub const RESET_TTL_SECS: u64 = 3_600;

/// What a single-use token is for.
#[derive(Clone, Copy, Debug, PartialEq, Eq, Structural)]
pub enum TokenKind {
    EmailVerification,
    PasswordReset,
}

/// The lifetime of a token of each kind.
pub open spec fn spec_ttl(kind: TokenKind) -> u64 {
    match kind {
        TokenKind::EmailVerification => VERIFICATION_TTL_SECS,
        TokenKind::PasswordReset => RESET_TTL_SECS,
    }
}

impl TokenKind {
    /// The lifetime of a token of this kind, in seconds.
    pub fn ttl(self) -> (r: u64)
        ensures
            r == spec_ttl(self),
    {
        match self {
            TokenKind::EmailVerification => VERIFICATION_TTL_SECS,
            TokenKind::PasswordReset => RESET_TTL_SECS,
        }
    }
}

/// A single-use token record. Times are seconds since the Unix epoch.
#[derive(Debug)]
pub struct OneTimeToken {
    pub id: String,
    pub user_id: String,
    pub token: String,
    pub kind: TokenKind,
    /// The address to confirm; verification tokens only.
    pub email: Option<String>,
    pub expires_at: u64,
    pub created_at: u64,
    /// When the token was consumed, if it was.
    pub used_at: Option<u64>,
}

/// The mathematical value of a single-use token record.
pub struct OneTimeTokenView {
    pub id: Seq<char>,
    pub user_id: Seq<char>,
    pub token: Seq<char>,
    pub kind: TokenKind,
    pub email: Option<Seq<char>>,
    pub expires_at: u64,
    pub created_at: u64,
    pub used_at: Option<u64>,
}

impl View for OneTimeToken {
    type V = OneTimeTokenView;

    open spec fn view(&self) -> OneTimeTokenView {
        OneTimeTokenView {
            id: self.id@,
            user_id: self.user_id@,
            token: self.token@,
            kind: self.kind,
            email: text_opt(self.email),
            expires_at: self.expires_at,
            created_at: self.created_at,
            used_at: self.used_at,
        }
    }
}

impl Clone for OneTimeToken {
    fn clone(&self) -> (r: Self)
        ensures
            r == *self,
    {
        OneTimeToken {
            id: self.id.clone(),
            user_id: self.user_id.clone(),
            token: self.token.clone(),
            kind: self.kind,
            email: copy_text_opt(&self.email),
            expires_at: self.expires_at,
            created_at: self.created_at,
            used_at: self.used_at,
        }
    }
}

/// The record of a token issued at `now`.
pub open spec fn new_one_time_token(
    id: Seq<char>,
    user_id: Seq<char>,
    token: Seq<char>,
    kind: TokenKind,
    email: Option<Seq<char>>,
    now: u64,
) -> OneTimeTokenView {
    OneTimeTokenView {
        id,
        user_id,
        token,
        kind,
        email,
        expires_at: (now + spec_ttl(kind)) as u64,
        created_at: now,
        used_at: None,
    }
}

/// The token text of a record.
pub open spec fn token_of() -> spec_fn(OneTimeTokenView) -> Seq<char> {
    |t: OneTimeTokenView| t.token
}

/// The predicate "carries this token".
pub open spec fn carrying(token: Seq<char>) -> spec_fn(OneTimeTokenView) -> bool {
    |t: OneTimeTokenView| t.token == token
}

/// The predicate "is not an expired token of this user": what the purge at
/// issuance keeps.
pub open spec fn outlives(user_id: Seq<char>, now: u64) -> spec_fn(OneTimeTokenView) -> bool {
    |t: OneTimeTokenView| !(t.user_id == user_id && t.expires_at < now)
}

/// The predicate "belongs to another user".
pub open spec fn not_owned_by(user_id: Seq<char>) -> spec_fn(OneTimeTokenView) -> bool {
    |t: OneTimeTokenView| t.user_id != user_id
}

/// A token can be consumed at `now` as a token of `kind` if it is of that
/// kind, unused, and its expiry has not passed.
pub open spec fn usable(t: OneTimeTokenView, kind: TokenKind, now: u64) -> bool {
    t.kind == kind && t.used_at is None && now <= t.expires_at
}

/// What issuing does: the user's expired tokens are purged; then the new
/// record is appended, unless its token text is already on record.
pub open spec fn spec_issue(tokens: Seq<OneTimeTokenView>, t: OneTimeTokenView) -> Result<
    Seq<OneTimeTokenView>,
    AuthError,
> {
    let kept = tokens.filter(outlives(t.user_id, t.created_at));
    if first_index(kept, carrying(t.token)) is Some {
        Err(AuthError::Internal)
    } else {
        Ok(kept.push(t))
    }
}

/// What consuming does: a usable token is marked as used at `now` and names
/// its owner; anything else leaves the store as it is and names nobody.
pub open spec fn spec_consume(
    tokens: Seq<OneTimeTokenView>,
    token: Seq<char>,
    kind: TokenKind,
    now: u64,
) -> (Seq<OneTimeTokenView>, Option<Seq<char>>) {
    match first_index(tokens, carrying(token)) {
        Some(i) => if usable(tokens[i], kind, now) {
            (
                tokens.update(i, OneTimeTokenView { used_at: Some(now), ..tokens[i] }),
                Some(tokens[i].user_id),
            )
        } else {
            (tokens, None)
        },
        None => (tokens, None),
    }
}

/// The issuer and store of single-use tokens.
pub struct OneTimeTokenIssuer {
    pub tokens: Vec<OneTimeToken>,
}

impl View for OneTimeTokenIssuer {
    type V = Seq<OneTimeTokenView>;

    open spec fn view(&self) -> Seq<OneTimeTokenView> {
        self.tokens@.map_values(|t: OneTimeToken| t@)
    }
}

impl OneTimeTokenIssuer {
    /// The store's invariant: token texts are unique.
    pub open spec fn wf(&self) -> bool {
        distinct_keys(self@, token_of())
    }

    /// An empty store.
    pub fn new() -> (r: OneTimeTokenIssuer)
        ensures
            r@ == Seq::<OneTimeTokenView>::empty(),
            r.wf(),
    {
        let r = OneTimeTokenIssuer { tokens: Vec::new() };
        assert(r@ =~= Seq::<OneTimeTokenView>::empty());
        r
    }

    /// Whether the invariant holds of records that came from outside, such
    /// as rows loaded from a database.
    pub fn is_well_formed(&self) -> (r: bool)
        ensures
            r == self.wf(),
    {
        let n = self.tokens.len();
        let mut j: usize = 0;
        while j < n
            invariant
                n == self.tokens@.len(),
                j <= n,
                forall|a: int, b: int|
                    0 <= a < b < j ==> token_of()(#[trigger] self@[a]) != token_of()(
                        #[trigger] self@[b],
                    ),
            decreases n - j,
        {
            let mut i: usize = 0;
            while i < j
                invariant
                    n == self.tokens@.len(),
                    i <= j < n,
                    forall|a: int|
                        0 <= a < i ==> token_of()(#[trigger] self@[a]) != token_of()(
                            self@[j as int],
                        ),
                decreases j - i,
            {
                if same_text(self.tokens[i].token.as_str(), self.tokens[j].token.as_str()) {
                    assert(token_of()(self@[i as int]) == token_of()(self@[j as int]));
                    return false;
                }
                i += 1;
            }
            j += 1;
        }
        true
    }

    /// The number of tokens on record.
    pub fn len(&self) -> (r: usize)
        ensures
            r == self@.len(),
    {
        self.tokens.len()
    }

    /// The position of the record that carries this token.
    pub fn position_of(&self, token: &str) -> (r: Option<usize>)
        ensures
            match r {
                Some(i) => first_index(self@, carrying(token@)) == Some(i as int) && i
                    < self@.len(),
                None => first_index(self@, carrying(token@)) is None,
            },
    {
        let n = self.tokens.len();
        let mut i: usize = 0;
        while i < n
            invariant
                n == self.tokens@.len(),
                i <= n,
                forall|k: int| 0 <= k < i ==> !carrying(token@)(#[trigger] self@[k]),
            decreases n - i,
        {
            if same_text(self.tokens[i].token.as_str(), token) {
                proof {
                    assert(carrying(token@)(self@[i as int]));
                    lemma_first_index_is(self@, carrying(token@), 0, i as int);
                }
                return Some(i);
            }
            i += 1;
        }
        proof {
            lemma_first_index_none(self@, carrying(token@), 0);
        }
        None
    }

    /// Keeps the records that satisfy a rule about owner and expiry: with
    /// `all` every token of `user_id` goes, without it only the expired
    /// ones.
    fn retain(&mut self, user_id: &str, now: u64, all: bool)
        requires
            old(self).wf(),
        ensures
            final(self).wf(),
            final(self)@ == old(self)@.filter(
                if all {
                    not_owned_by(user_id@)
                } else {
                    outlives(user_id@, now)
                },
            ),
    {
        let ghost p = if all {
            not_owned_by(user_id@)
        } else {
            outlives(user_id@, now)
        };
        let mut kept: Vec<OneTimeToken> = Vec::new();
        let n = self.tokens.len();
        let mut i: usize = 0;
        assert(self@.take(0).filter(p) =~= Seq::<OneTimeTokenView>::empty()) by {
            reveal(Seq::filter);
        }
        while i < n
            invariant
                n == self.tokens@.len(),
                *self == *old(self),
                i <= n,
                p == if all {
                    not_owned_by(user_id@)
                } else {
                    outlives(user_id@, now)
                },
                kept@.map_values(|t: OneTimeToken| t@) =~= self@.take(i as int).filter(p),
            decreases n - i,
        {
            let t = &self.tokens[i];
            proof {
                lemma_filter_step(self@, p, i as int);
            }
            let owned = same_text(t.user_id.as_str(), user_id);
            let goes = owned && (all || t.expires_at < now);
            if !goes {
                kept.push(t.clone());
            }
            i += 1;
        }
        proof {
            assert(self@.take(n as int) =~= self@);
            lemma_filter_keeps_distinct(old(self)@, token_of(), p);
        }
        self.tokens = kept;
    }

    /// Drops every token of `user_id`.
    pub fn remove_user(&mut self, user_id: &str)
        requires
            old(self).wf(),
        ensures
            final(self).wf(),
            final(self)@ == old(self)@.filter(not_owned_by(user_id@)),
    {
        self.retain(user_id, 0, true);
    }

    /// Issues a token of `kind` for `user_id` at `now`, valid for the
    /// lifetime of its kind. The user's expired tokens are purged first.
    /// `Internal`, with only the purge done, exactly where the token text is
    /// already on record.
    pub fn issue(
        &mut self,
        id: String,
        user_id: &str,
        token: String,
        kind: TokenKind,
        email: Option<String>,
        now: u64,
    ) -> (r: Result<(), AuthError>)
        requires
            old(self).wf(),
            now <= MAX_TIMESTAMP,
        ensures
            final(self).wf(),
            ({
                let t = new_one_time_token(id@, user_id@, token@, kind, text_opt(email), now);
                match spec_issue(old(self)@, t) {
                    Ok(tokens) => r is Ok && final(self)@ == tokens,
                    Err(e) => r == Err::<(), AuthError>(e) && final(self)@ == old(self)@.filter(
                        outlives(user_id@, now),
                    ),
                }
            }),
    {
        self.retain(user_id, now, false);
        if self.position_of(token.as_str()).is_some() {
            return Err(AuthError::Internal);
        }
        let record = OneTimeToken {
            id,
            user_id: user_id.to_owned(),
            token,
            kind,
            email,
            expires_at: now + kind.ttl(),
            created_at: now,
            used_at: None,
        };
        let ghost before = self@;
        proof {
            lemma_first_index_found(before, carrying(record@.token), 0);
            let after = before.push(record@);
            assert forall|i: int, j: int| 0 <= i < j < after.len() implies token_of()(
                #[trigger] after[i],
            ) != token_of()(#[trigger] after[j]) by {
                if j < before.len() {
                    assert(token_of()(before[i]) != token_of()(before[j]));
                } else {
                    assert(!carrying(record@.token)(before[i]));
                }
            }
        }
        self.tokens.push(record);
        assert(self@ =~= before.push(record@));
        Ok(())
    }

    /// The owner of `token`, if it could be consumed as a token of `kind` at
    /// `now`. Nothing is consumed.
    pub fn owner_of_usable(&self, token: &str, kind: TokenKind, now: u64) -> (r: Option<String>)
        ensures
            text_opt(r) == spec_consume(self@, token@, kind, now).1,
    {
        match self.position_of(token) {
            Some(i) => {
                let t = &self.tokens[i];
                if t.kind == kind && t.used_at.is_none() && now <= t.expires_at {
                    Some(t.user_id.clone())
                } else {
                    None
                }
            },
            None => None,
        }
    }

    /// Consumes `token` as a token of `kind` at `now`. Where it is on
    /// record, of that kind, unused and not expired, it is marked as used
    /// and its owner's id comes back. Otherwise nothing changes and `None`
    /// comes back, whatever the reason.
    pub fn consume(&mut self, token: &str, kind: TokenKind, now: u64) -> (r: Option<String>)
        requires
            old(self).wf(),
        ensures
            final(self).wf(),
            (final(self)@, text_opt(r)) == spec_consume(old(self)@, token@, kind, now),
    {
        match self.position_of(token) {
            Some(i) => {
                let t = &self.tokens[i];
                if t.kind == kind && t.used_at.is_none() && now <= t.expires_at {
                    let owner = t.user_id.clone();
                    self.tokens[i].used_at = Some(now);
                    proof {
                        let after = old(self)@.update(
                            i as int,
                            OneTimeTokenView { used_at: Some(now), ..old(self)@[i as int] },
                        );
                        assert(self@ =~= after);
                        assert forall|a: int, b: int| 0 <= a < b < after.len() implies token_of()(
                            #[trigger] after[a],
                        ) != token_of()(#[trigger] after[b]) by {
                            assert(token_of()(old(self)@[a]) != token_of()(old(self)@[b]));
                        }
                    }
                    Some(owner)
                } else {
                    None
                }
            },
            None => None,
        }
    }
}

/// A token is consumed at most once: after a consumption that named an
/// owner, every later consumption of the same token names nobody and
/// changes nothing, whatever kind and time it is tried with.
pub proof fn lemma_consume_is_single_use(
    tokens: Seq<OneTimeTokenView>,
    token: Seq<char>,
    kind: TokenKind,
    now: u64,
    later_kind: TokenKind,
    later: u64,
)
    requires
        spec_consume(tokens, token, kind, now).1 is Some,
    ensures
        ({
            let after = spec_consume(tokens, token, kind, now).0;
            spec_consume(after, token, later_kind, later) == (after, None::<Seq<char>>)
        }),
{
    lemma_first_index_found(tokens, carrying(token), 0);
    let i = first_index(tokens, carrying(token))->0;
    let used = OneTimeTokenView { used_at: Some(now), ..tokens[i] };
    assert(carrying(token)(used) == carrying(token)(tokens[i]));
    lemma_first_index_update(tokens, carrying(token), i, used);
}

/// A token that was just issued can be consumed once, until its expiry has
/// passed, and names the user it was issued for.
pub proof fn lemma_issued_token_is_consumable(
    tokens: Seq<OneTimeTokenView>,
    t: OneTimeTokenView,
    later: u64,
)
    requires
        spec_issue(tokens, t) is Ok,
        t.used_at is None,
        later <= t.expires_at,
    ensures
        spec_consume(spec_issue(tokens, t)->Ok_0, t.token, t.kind, later).1 == Some(t.user_id),
{
    let kept = tokens.filter(outlives(t.user_id, t.created_at));
    crate::search::lemma_first_index_push(kept, carrying(t.token), t);
    assert(carrying(t.token)(t));
}

/// A token whose expiry has passed is refused.
pub proof fn lemma_expired_token_is_refused(
    tokens: Seq<OneTimeTokenView>,
    token: Seq<char>,
    kind: TokenKind,
    now: u64,
)
    requires
        first_index(tokens, carrying(token)) matches Some(i) && tokens[i].expires_at < now,
    ensures
        spec_consume(tokens, token, kind, now) == (tokens, None::<Seq<char>>),
{
}

} // verus!
