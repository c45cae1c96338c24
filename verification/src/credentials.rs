//! The credential store: one record per account, found by id or by e-mail
//! address (compared without regard to ASCII case).
//!
//! The store is modelled as the sequence of its records' views; every
//! operation is stated as a function from the old sequence to the new one.

use crate::error::AuthError;
use crate::hasher;
use crate::hasher::spec_verify;
use crate::lockout::{after_failure, is_locked_at, LockState, MAX_TIMESTAMP};
use crate::search::{
    first_index,
    lemma_first_index_found,
    lemma_first_index_is,
    lemma_first_index_none,
};
use crate::text::{
    copy_text_opt,
    eq_ignoring_ascii_case,
    same_ignoring_ascii_case,
    same_text,
    text_opt,
};
use vstd::prelude::*;

verus! {

/// A credential record. Times are seconds since the Unix epoch.
#[derive(Debug)]
pub struct AuthUser {
    pub id: String,
    pub email: String,
    /// The stored password hash; empty for an account that signs in through
    /// a social identity provider only.
    pub password_hash: String,
    pub name: String,
    pub avatar: Option<String>,
    pub created_at: u64,
    pub updated_at: u64,
    pub email_verified: bool,
    pub is_active: bool,
    pub last_login: Option<u64>,
    pub failed_login_attempts: u32,
    pub locked_until: Option<u64>,
}

/// The mathematical value of a credential record.
pub struct AuthUserView {
    pub id: Seq<char>,
    pub email: Seq<char>,
    pub password_hash: Seq<char>,
    pub name: Seq<char>,
    pub avatar: Option<Seq<char>>,
    pub created_at: u64,
    pub updated_at: u64,
    pub email_verified: bool,
    pub is_active: bool,
    pub last_login: Option<u64>,
    pub failed_login_attempts: u32,
    pub locked_until: Option<u64>,
}

impl View for AuthUser {
    type V = AuthUserView;

    open spec fn view(&self) -> AuthUserView {
        AuthUserView {
            id: self.id@,
            email: self.email@,
            password_hash: self.password_hash@,
            name: self.name@,
            avatar: text_opt(self.avatar),
            created_at: self.created_at,
            updated_at: self.updated_at,
            email_verified: self.email_verified,
            is_active: self.is_active,
            last_login: self.last_login,
            failed_login_attempts: self.failed_login_attempts,
            locked_until: self.locked_until,
        }
    }
}

impl Clone for AuthUser {
    fn clone(&self) -> (r: Self)
        ensures
            r == *self,
    {
        AuthUser {
            id: self.id.clone(),
            email: self.email.clone(),
            password_hash: self.password_hash.clone(),
            name: self.name.clone(),
            avatar: copy_text_opt(&self.avatar),
            created_at: self.created_at,
            updated_at: self.updated_at,
            email_verified: self.email_verified,
            is_active: self.is_active,
            last_login: self.last_login,
            failed_login_attempts: self.failed_login_attempts,
            locked_until: self.locked_until,
        }
    }
}

/// The lock state that a record stores.
pub open spec fn lock_of(u: AuthUserView) -> LockState {
    LockState::spec_from_record(u.failed_login_attempts, u.locked_until)
}

/// The record with another lock state.
pub open spec fn with_lock(u: AuthUserView, state: LockState) -> AuthUserView {
    AuthUserView {
        failed_login_attempts: state.spec_failed_count(),
        locked_until: state.spec_locked_until(),
        ..u
    }
}

/// The predicate "has this e-mail address, up to ASCII case".
pub open spec fn by_email(email: Seq<char>) -> spec_fn(AuthUserView) -> bool {
    |u: AuthUserView| same_ignoring_ascii_case(u.email, email)
}

/// The predicate "has this id".
pub open spec fn by_id(id: Seq<char>) -> spec_fn(AuthUserView) -> bool {
    |u: AuthUserView| u.id == id
}

/// No two records share an id or, up to ASCII case, an e-mail address.
pub open spec fn users_wf(users: Seq<AuthUserView>) -> bool {
    forall|i: int, j: int|
        0 <= i < j < users.len() ==> (#[trigger] users[i]).id != (#[trigger] users[j]).id
            && !same_ignoring_ascii_case(users[i].email, users[j].email)
}

/// The record of a new password account.
pub open spec fn new_account(
    id: Seq<char>,
    email: Seq<char>,
    name: Seq<char>,
    password_hash: Seq<char>,
    now: u64,
) -> AuthUserView {
    AuthUserView {
        id,
        email,
        password_hash,
        name,
        avatar: None,
        created_at: now,
        updated_at: now,
        email_verified: false,
        is_active: true,
        last_login: None,
        failed_login_attempts: 0,
        locked_until: None,
    }
}

/// The record of a new account that signs in through a social identity
/// provider: no password, address taken as verified.
pub open spec fn new_social_account(
    id: Seq<char>,
    email: Seq<char>,
    name: Seq<char>,
    avatar: Option<Seq<char>>,
    now: u64,
) -> AuthUserView {
    AuthUserView {
        id,
        email,
        password_hash: Seq::empty(),
        name,
        avatar,
        created_at: now,
        updated_at: now,
        email_verified: true,
        is_active: true,
        last_login: None,
        failed_login_attempts: 0,
        locked_until: None,
    }
}

/// What adding a record does: refused with `Conflict` where the address is
/// taken, with `Internal` where the id is; else the record is appended.
pub open spec fn spec_insert(users: Seq<AuthUserView>, u: AuthUserView) -> Result<
    Seq<AuthUserView>,
    AuthError,
> {
    if first_index(users, by_email(u.email)) is Some {
        Err(AuthError::Conflict)
    } else if first_index(users, by_id(u.id)) is Some {
        Err(AuthError::Internal)
    } else {
        Ok(users.push(u))
    }
}

/// What a successful login at `now` does to the account `id`: failure count
/// cleared, lock lifted, time of login noted. Unknown ids change nothing.
pub open spec fn spec_record_login_success(users: Seq<AuthUserView>, id: Seq<char>, now: u64) -> Seq<
    AuthUserView,
> {
    match first_index(users, by_id(id)) {
        Some(i) => users.update(
            i,
            AuthUserView {
                failed_login_attempts: 0,
                locked_until: None,
                last_login: Some(now),
                ..users[i]
            },
        ),
        None => users,
    }
}

/// What a failed login at `now` does to the account with this address: the
/// lockout policy's step. Unknown addresses change nothing.
pub open spec fn spec_record_login_failure(
    users: Seq<AuthUserView>,
    email: Seq<char>,
    now: u64,
) -> Seq<AuthUserView> {
    match first_index(users, by_email(email)) {
        Some(i) => users.update(i, with_lock(users[i], after_failure(lock_of(users[i]), now))),
        None => users,
    }
}

/// What storing a new password hash at `now` does to the account `id`.
pub open spec fn spec_set_password_hash(
    users: Seq<AuthUserView>,
    id: Seq<char>,
    hash: Seq<char>,
    now: u64,
) -> Seq<AuthUserView> {
    match first_index(users, by_id(id)) {
        Some(i) => users.update(
            i,
            AuthUserView { password_hash: hash, updated_at: now, ..users[i] },
        ),
        None => users,
    }
}

/// What confirming the address at `now` does to the account `id`.
pub open spec fn spec_mark_email_verified(users: Seq<AuthUserView>, id: Seq<char>, now: u64) -> Seq<
    AuthUserView,
> {
    match first_index(users, by_id(id)) {
        Some(i) => users.update(
            i,
            AuthUserView { email_verified: true, updated_at: now, ..users[i] },
        ),
        None => users,
    }
}

/// The record after a profile update at `now`: a new name and a new address
/// where they are given; a new address is unconfirmed.
pub open spec fn with_profile(
    u: AuthUserView,
    name: Option<Seq<char>>,
    email: Option<Seq<char>>,
    now: u64,
) -> AuthUserView {
    AuthUserView {
        name: match name {
            Some(n) => n,
            None => u.name,
        },
        email: match email {
            Some(e) => e,
            None => u.email,
        },
        email_verified: u.email_verified && email is None,
        updated_at: now,
        ..u
    }
}

/// What a profile update at `now` does to the account `id`: `NotFound`
/// where there is no such account, `Conflict` where the new address is on
/// record already (the account's own included).
pub open spec fn spec_update_profile(
    users: Seq<AuthUserView>,
    id: Seq<char>,
    name: Option<Seq<char>>,
    email: Option<Seq<char>>,
    now: u64,
) -> Result<Seq<AuthUserView>, AuthError> {
    match first_index(users, by_id(id)) {
        None => Err(AuthError::NotFound),
        Some(i) => if email matches Some(e) && first_index(users, by_email(e)) is Some {
            Err(AuthError::Conflict)
        } else {
            Ok(users.update(i, with_profile(users[i], name, email, now)))
        },
    }
}

/// Giving one record an address that is new to the store keeps the store
/// well-formed.
pub proof fn lemma_new_email_keeps_wf(users: Seq<AuthUserView>, i: int, u: AuthUserView)
    requires
        users_wf(users),
        0 <= i < users.len(),
        u.id == users[i].id,
        first_index(users, by_email(u.email)) is None,
    ensures
        users_wf(users.update(i, u)),
{
    let t = users.update(i, u);
    lemma_first_index_found(users, by_email(u.email), 0);
    assert forall|a: int, b: int| 0 <= a < b < t.len() implies (#[trigger] t[a]).id != (
    #[trigger] t[b]).id && !same_ignoring_ascii_case(t[a].email, t[b].email) by {
        assert(users[a].id != users[b].id);
        assert(!same_ignoring_ascii_case(users[a].email, users[b].email));
        if a == i {
            assert(!by_email(u.email)(users[b]));
            if same_ignoring_ascii_case(u.email, users[b].email) {
                crate::text::lemma_same_ignoring_case_symmetric(u.email, users[b].email);
            }
        }
        if b == i {
            assert(!by_email(u.email)(users[a]));
        }
    }
}

/// What removing the account `id` does.
pub open spec fn spec_remove(users: Seq<AuthUserView>, id: Seq<char>) -> Seq<AuthUserView> {
    match first_index(users, by_id(id)) {
        Some(i) => users.remove(i),
        None => users,
    }
}

/// A change of one record that keeps its id and address keeps the store
/// well-formed.
pub proof fn lemma_update_keeps_wf(users: Seq<AuthUserView>, i: int, u: AuthUserView)
    requires
        users_wf(users),
        0 <= i < users.len(),
        u.id == users[i].id,
        u.email == users[i].email,
    ensures
        users_wf(users.update(i, u)),
{
    let t = users.update(i, u);
    assert forall|a: int, b: int| 0 <= a < b < t.len() implies (#[trigger] t[a]).id != (
    #[trigger] t[b]).id && !same_ignoring_ascii_case(t[a].email, t[b].email) by {
        assert(users[a].id != users[b].id);
        assert(!same_ignoring_ascii_case(users[a].email, users[b].email));
    }
}

/// Removing a record keeps the store well-formed.
pub proof fn lemma_remove_keeps_wf(users: Seq<AuthUserView>, i: int)
    requires
        users_wf(users),
        0 <= i < users.len(),
    ensures
        users_wf(users.remove(i)),
{
    let t = users.remove(i);
    assert forall|a: int, b: int| 0 <= a < b < t.len() implies (#[trigger] t[a]).id != (
    #[trigger] t[b]).id && !same_ignoring_ascii_case(t[a].email, t[b].email) by {
        let a0 = if a < i { a } else { a + 1 };
        let b0 = if b < i { b } else { b + 1 };
        assert(t[a] == users[a0] && t[b] == users[b0]);
        assert(users[a0].id != users[b0].id);
        assert(!same_ignoring_ascii_case(users[a0].email, users[b0].email));
    }
}

/// Appending a record whose id and address are both new keeps the store
/// well-formed.
pub proof fn lemma_push_keeps_wf(users: Seq<AuthUserView>, u: AuthUserView)
    requires
        users_wf(users),
        first_index(users, by_email(u.email)) is None,
        first_index(users, by_id(u.id)) is None,
    ensures
        users_wf(users.push(u)),
{
    let t = users.push(u);
    lemma_first_index_found(users, by_email(u.email), 0);
    lemma_first_index_found(users, by_id(u.id), 0);
    assert forall|a: int, b: int| 0 <= a < b < t.len() implies (#[trigger] t[a]).id != (
    #[trigger] t[b]).id && !same_ignoring_ascii_case(t[a].email, t[b].email) by {
        if b < users.len() {
            assert(users[a].id != users[b].id);
            assert(!same_ignoring_ascii_case(users[a].email, users[b].email));
        } else {
            assert(t[a] == users[a]);
            assert(!by_email(u.email)(users[a]));
            assert(!by_id(u.id)(users[a]));
        }
    }
}

/// In a well-formed store a record is the first one with its own id and the
/// first one with its own address.
pub proof fn lemma_record_is_first(users: Seq<AuthUserView>, i: int)
    requires
        users_wf(users),
        0 <= i < users.len(),
    ensures
        first_index(users, by_id(users[i].id)) == Some(i),
        first_index(users, by_email(users[i].email)) == Some(i),
{
    let u = users[i];
    assert(by_id(u.id)(users[i]));
    assert(by_email(u.email)(users[i]));
    assert forall|k: int| 0 <= k < i implies !by_id(u.id)(#[trigger] users[k]) by {
        assert(users[k].id != users[i].id);
    }
    assert forall|k: int| 0 <= k < i implies !by_email(u.email)(#[trigger] users[k]) by {
        assert(!same_ignoring_ascii_case(users[k].email, users[i].email));
    }
    lemma_first_index_is(users, by_id(u.id), 0, i);
    lemma_first_index_is(users, by_email(u.email), 0, i);
}

/// The store of credential records.
pub struct CredentialStore {
    pub users: Vec<AuthUser>,
}

impl View for CredentialStore {
    type V = Seq<AuthUserView>;

    open spec fn view(&self) -> Seq<AuthUserView> {
        self.users@.map_values(|u: AuthUser| u@)
    }
}

impl CredentialStore {
    /// The store's invariant: ids and addresses are unique.
    pub open spec fn wf(&self) -> bool {
        users_wf(self@)
    }

    /// An empty store.
    pub fn new() -> (r: CredentialStore)
        ensures
            r@ == Seq::<AuthUserView>::empty(),
            r.wf(),
    {
        let r = CredentialStore { users: Vec::new() };
        assert(r@ =~= Seq::<AuthUserView>::empty());
        r
    }

    /// Whether the invariant holds of records that came from outside, such
    /// as rows loaded from a database.
    pub fn is_well_formed(&self) -> (r: bool)
        ensures
            r == self.wf(),
    {
        let n = self.users.len();
        let mut j: usize = 0;
        while j < n
            invariant
                n == self.users@.len(),
                j <= n,
                forall|a: int, b: int|
                    0 <= a < b < j ==> (#[trigger] self@[a]).id != (#[trigger] self@[b]).id
                        && !same_ignoring_ascii_case(self@[a].email, self@[b].email),
            decreases n - j,
        {
            let mut i: usize = 0;
            while i < j
                invariant
                    n == self.users@.len(),
                    i <= j < n,
                    forall|a: int|
                        0 <= a < i ==> (#[trigger] self@[a]).id != self@[j as int].id
                            && !same_ignoring_ascii_case(self@[a].email, self@[j as int].email),
                decreases j - i,
            {
                if same_text(self.users[i].id.as_str(), self.users[j].id.as_str())
                    || eq_ignoring_ascii_case(
                    self.users[i].email.as_str(),
                    self.users[j].email.as_str(),
                ) {
                    assert(self@[i as int].id == self@[j as int].id || same_ignoring_ascii_case(
                        self@[i as int].email,
                        self@[j as int].email,
                    ));
                    return false;
                }
                i += 1;
            }
            j += 1;
        }
        true
    }

    /// The number of accounts.
    pub fn len(&self) -> (r: usize)
        ensures
            r == self@.len(),
    {
        self.users.len()
    }

    /// The position of the account with this address, compared without
    /// regard to ASCII case.
    pub fn position_by_email(&self, email: &str) -> (r: Option<usize>)
        ensures
            match r {
                Some(i) => first_index(self@, by_email(email@)) == Some(i as int) && i
                    < self@.len(),
                None => first_index(self@, by_email(email@)) is None,
            },
    {
        let n = self.users.len();
        let mut i: usize = 0;
        while i < n
            invariant
                n == self.users@.len(),
                i <= n,
                forall|k: int| 0 <= k < i ==> !by_email(email@)(#[trigger] self@[k]),
            decreases n - i,
        {
            if eq_ignoring_ascii_case(self.users[i].email.as_str(), email) {
                proof {
                    assert(by_email(email@)(self@[i as int]));
                    lemma_first_index_is(self@, by_email(email@), 0, i as int);
                }
                return Some(i);
            }
            i += 1;
        }
        proof {
            lemma_first_index_none(self@, by_email(email@), 0);
        }
        None
    }

    /// The position of the account with this id.
    pub fn position_by_id(&self, id: &str) -> (r: Option<usize>)
        ensures
            match r {
                Some(i) => first_index(self@, by_id(id@)) == Some(i as int) && i < self@.len(),
                None => first_index(self@, by_id(id@)) is None,
            },
    {
        let n = self.users.len();
        let mut i: usize = 0;
        while i < n
            invariant
                n == self.users@.len(),
                i <= n,
                forall|k: int| 0 <= k < i ==> !by_id(id@)(#[trigger] self@[k]),
            decreases n - i,
        {
            if same_text(self.users[i].id.as_str(), id) {
                proof {
                    assert(by_id(id@)(self@[i as int]));
                    lemma_first_index_is(self@, by_id(id@), 0, i as int);
                }
                return Some(i);
            }
            i += 1;
        }
        proof {
            lemma_first_index_none(self@, by_id(id@), 0);
        }
        None
    }

    /// The account with this address, if there is one.
    pub fn find_by_email(&self, email: &str) -> (r: Option<&AuthUser>)
        ensures
            match first_index(self@, by_email(email@)) {
                Some(i) => r matches Some(u) && u@ == self@[i],
                None => r is None,
            },
    {
        match self.position_by_email(email) {
            Some(i) => Some(&self.users[i]),
            None => None,
        }
    }

    /// The account with this id, if there is one.
    pub fn find_by_id(&self, id: &str) -> (r: Option<&AuthUser>)
        ensures
            match first_index(self@, by_id(id@)) {
                Some(i) => r matches Some(u) && u@ == self@[i],
                None => r is None,
            },
    {
        match self.position_by_id(id) {
            Some(i) => Some(&self.users[i]),
            None => None,
        }
    }

    /// Adds a record. `Conflict` where the address is taken, `Internal`
    /// where the id is; the store is then unchanged.
    pub fn insert(&mut self, user: AuthUser) -> (r: Result<(), AuthError>)
        requires
            old(self).wf(),
        ensures
            final(self).wf(),
            match spec_insert(old(self)@, user@) {
                Ok(users) => r is Ok && final(self)@ == users,
                Err(e) => r == Err::<(), AuthError>(e) && final(self)@ == old(self)@,
            },
    {
        if self.position_by_email(user.email.as_str()).is_some() {
            return Err(AuthError::Conflict);
        }
        if self.position_by_id(user.id.as_str()).is_some() {
            return Err(AuthError::Internal);
        }
        proof {
            lemma_push_keeps_wf(self@, user@);
        }
        self.users.push(user);
        assert(self@ =~= old(self)@.push(user@));
        Ok(())
    }

    /// Notes a successful login at `now`: failure count to 0, lock lifted,
    /// `last_login` set. Says whether the account exists.
    pub fn record_login_success(&mut self, user_id: &str, now: u64) -> (r: bool)
        requires
            old(self).wf(),
        ensures
            final(self).wf(),
            final(self)@ == spec_record_login_success(old(self)@, user_id@, now),
            r == (first_index(old(self)@, by_id(user_id@)) is Some),
    {
        match self.position_by_id(user_id) {
            Some(i) => {
                self.users[i].failed_login_attempts = 0;
                self.users[i].locked_until = None;
                self.users[i].last_login = Some(now);
                proof {
                    assert(self@ =~= spec_record_login_success(old(self)@, user_id@, now));
                    lemma_update_keeps_wf(old(self)@, i as int, self@[i as int]);
                }
                true
            },
            None => false,
        }
    }

    /// Notes a failed login at `now` for the account with this address: the
    /// failure count grows, and the failure that reaches the limit closes
    /// the account for one lock window. Says whether the account exists.
    pub fn record_login_failure(&mut self, email: &str, now: u64) -> (r: bool)
        requires
            old(self).wf(),
            now <= MAX_TIMESTAMP,
        ensures
            final(self).wf(),
            final(self)@ == spec_record_login_failure(old(self)@, email@, now),
            r == (first_index(old(self)@, by_email(email@)) is Some),
    {
        match self.position_by_email(email) {
            Some(i) => {
                let state = LockState::from_record(
                    self.users[i].failed_login_attempts,
                    self.users[i].locked_until,
                );
                let next = state.on_failure(now);
                self.users[i].failed_login_attempts = next.failed_count();
                self.users[i].locked_until = next.locked_until();
                proof {
                    assert(self@ =~= spec_record_login_failure(old(self)@, email@, now));
                    lemma_update_keeps_wf(old(self)@, i as int, self@[i as int]);
                }
                true
            },
            None => false,
        }
    }

    /// Stores a new password hash for the account `user_id`. Says whether
    /// the account exists.
    pub fn set_password_hash(&mut self, user_id: &str, hash: String, now: u64) -> (r: bool)
        requires
            old(self).wf(),
        ensures
            final(self).wf(),
            final(self)@ == spec_set_password_hash(old(self)@, user_id@, hash@, now),
            r == (first_index(old(self)@, by_id(user_id@)) is Some),
    {
        match self.position_by_id(user_id) {
            Some(i) => {
                self.users[i].password_hash = hash;
                self.users[i].updated_at = now;
                proof {
                    assert(self@ =~= spec_set_password_hash(old(self)@, user_id@, hash@, now));
                    lemma_update_keeps_wf(old(self)@, i as int, self@[i as int]);
                }
                true
            },
            None => false,
        }
    }

    /// Marks the address of the account `user_id` as confirmed. Says whether
    /// the account exists.
    pub fn mark_email_verified(&mut self, user_id: &str, now: u64) -> (r: bool)
        requires
            old(self).wf(),
        ensures
            final(self).wf(),
            final(self)@ == spec_mark_email_verified(old(self)@, user_id@, now),
            r == (first_index(old(self)@, by_id(user_id@)) is Some),
    {
        match self.position_by_id(user_id) {
            Some(i) => {
                self.users[i].email_verified = true;
                self.users[i].updated_at = now;
                proof {
                    assert(self@ =~= spec_mark_email_verified(old(self)@, user_id@, now));
                    lemma_update_keeps_wf(old(self)@, i as int, self@[i as int]);
                }
                true
            },
            None => false,
        }
    }

    /// Changes name and address of the account `user_id` where they are
    /// given. A new address is stored as unconfirmed. On failure the store
    /// is unchanged.
    pub fn update_profile(
        &mut self,
        user_id: &str,
        name: Option<&str>,
        email: Option<&str>,
        now: u64,
    ) -> (r: Result<(), AuthError>)
        requires
            old(self).wf(),
        ensures
            final(self).wf(),
            match spec_update_profile(
                old(self)@,
                user_id@,
                match name {
                    Some(n) => Some(n@),
                    None => None,
                },
                match email {
                    Some(e) => Some(e@),
                    None => None,
                },
                now,
            ) {
                Ok(users) => r is Ok && final(self)@ == users,
                Err(e) => r == Err::<(), AuthError>(e) && final(self)@ == old(self)@,
            },
    {
        let i = match self.position_by_id(user_id) {
            Some(i) => i,
            None => {
                return Err(AuthError::NotFound);
            },
        };
        if let Some(e) = email {
            if self.position_by_email(e).is_some() {
                return Err(AuthError::Conflict);
            }
        }
        if let Some(n) = name {
            self.users[i].name = n.to_owned();
        }
        if let Some(e) = email {
            self.users[i].email = e.to_owned();
            self.users[i].email_verified = false;
        }
        self.users[i].updated_at = now;
        proof {
            let ghost_name: Option<Seq<char>> = match name {
                Some(n) => Some(n@),
                None => None,
            };
            let ghost_email: Option<Seq<char>> = match email {
                Some(e) => Some(e@),
                None => None,
            };
            let u = with_profile(old(self)@[i as int], ghost_name, ghost_email, now);
            assert(self@ =~= old(self)@.update(i as int, u));
            if email is Some {
                lemma_new_email_keeps_wf(old(self)@, i as int, u);
            } else {
                lemma_update_keeps_wf(old(self)@, i as int, u);
            }
        }
        Ok(())
    }

    /// Removes the account `user_id`. Says whether it existed.
    pub fn remove(&mut self, user_id: &str) -> (r: bool)
        requires
            old(self).wf(),
        ensures
            final(self).wf(),
            final(self)@ == spec_remove(old(self)@, user_id@),
            r == (first_index(old(self)@, by_id(user_id@)) is Some),
    {
        match self.position_by_id(user_id) {
            Some(i) => {
                self.users.remove(i);
                proof {
                    assert(self@ =~= spec_remove(old(self)@, user_id@));
                    lemma_remove_keeps_wf(old(self)@, i as int);
                }
                true
            },
            None => false,
        }
    }
}

/// What checking a candidate password against a stored hash gives: an
/// account without a password accepts none; else the hasher decides.
pub open spec fn password_verdict(stored_hash: Seq<char>, candidate: Seq<char>) -> Result<
    bool,
    AuthError,
> {
    if stored_hash.len() == 0 {
        Ok(false)
    } else {
        spec_verify(candidate, stored_hash)
    }
}

/// Checks a candidate password against the record's hash. The comparison is
/// the hash function's own; hashes are never compared as texts.
pub fn verify_password(user: &AuthUser, candidate: &str) -> (r: Result<bool, AuthError>)
    ensures
        r == password_verdict(user@.password_hash, candidate@),
{
    if user.password_hash.as_str().is_empty() {
        Ok(false)
    } else {
        hasher::verify(candidate, user.password_hash.as_str())
    }
}

impl CredentialStore {
    /// Adds a password account whose hash is already made. `Conflict` where
    /// the address is taken, `Internal` where the id is.
    pub fn create_with_hash(
        &mut self,
        id: String,
        email: &str,
        name: &str,
        password_hash: String,
        now: u64,
    ) -> (r: Result<(), AuthError>)
        requires
            old(self).wf(),
        ensures
            final(self).wf(),
            match spec_insert(old(self)@, new_account(id@, email@, name@, password_hash@, now)) {
                Ok(users) => r is Ok && final(self)@ == users,
                Err(e) => r == Err::<(), AuthError>(e) && final(self)@ == old(self)@,
            },
    {
        let user = AuthUser {
            id,
            email: email.to_owned(),
            password_hash,
            name: name.to_owned(),
            avatar: None,
            created_at: now,
            updated_at: now,
            email_verified: false,
            is_active: true,
            last_login: None,
            failed_login_attempts: 0,
            locked_until: None,
        };
        self.insert(user)
    }

    /// Adds an account that signs in through a social identity provider.
    /// `Conflict` where the address is taken, `Internal` where the id is.
    pub fn create_social(
        &mut self,
        id: String,
        email: &str,
        name: &str,
        avatar: Option<String>,
        now: u64,
    ) -> (r: Result<(), AuthError>)
        requires
            old(self).wf(),
        ensures
            final(self).wf(),
            match spec_insert(
                old(self)@,
                new_social_account(id@, email@, name@, text_opt(avatar), now),
            ) {
                Ok(users) => r is Ok && final(self)@ == users,
                Err(e) => r == Err::<(), AuthError>(e) && final(self)@ == old(self)@,
            },
    {
        let user = AuthUser {
            id,
            email: email.to_owned(),
            password_hash: String::new(),
            name: name.to_owned(),
            avatar,
            created_at: now,
            updated_at: now,
            email_verified: true,
            is_active: true,
            last_login: None,
            failed_login_attempts: 0,
            locked_until: None,
        };
        self.insert(user)
    }

    /// Registers a password account and returns its record. The password is
    /// hashed before it is stored: the stored hash is never the plaintext,
    /// and [`verify_password`] accepts the plaintext for it.
    ///
    /// `Conflict` exactly where the address is already registered; then
    /// nothing is hashed. Otherwise the only failure is `Internal` (the hash
    /// function failed, or the id is in use). On every failure the store is
    /// unchanged.
    pub fn create(&mut self, id: String, email: &str, name: &str, password: &str, now: u64) -> (r:
        Result<AuthUser, AuthError>)
        requires
            old(self).wf(),
        ensures
            final(self).wf(),
            first_index(old(self)@, by_email(email@)) is Some <==> r matches Err(
                AuthError::Conflict,
            ),
            match r {
                Ok(user) => {
                    let stored = final(self)@.last();
                    &&& user@ == stored
                    &&& final(self)@ == old(self)@.push(stored)
                    &&& stored == new_account(id@, email@, name@, stored.password_hash, now)
                    &&& stored.password_hash != password@
                    &&& password_verdict(stored.password_hash, password@) == Ok::<bool, AuthError>(
                        true,
                    )
                },
                Err(e) => final(self)@ == old(self)@ && (e == AuthError::Conflict || e
                    == AuthError::Internal),
            },
    {
        if self.position_by_email(email).is_some() {
            return Err(AuthError::Conflict);
        }
        let password_hash = match hasher::hash(password) {
            Ok(h) => h,
            Err(_) => {
                return Err(AuthError::Internal);
            },
        };
        if password_hash.as_str().is_empty() {
            return Err(AuthError::Internal);
        }
        match self.create_with_hash(id, email, name, password_hash, now) {
            Ok(_) => {
                let last = self.users.len() - 1;
                assert(self@.last() == new_account(id@, email@, name@, password_hash@, now));
                Ok(self.users[last].clone())
            },
            Err(e) => Err(e),
        }
    }

    /// Replaces the password of the account `user_id`. `NotFound` exactly
    /// where there is no such account; otherwise the only failure is
    /// `Internal` (the hash function failed). On success the new hash is
    /// never the plaintext and [`verify_password`] accepts the plaintext for
    /// it; nothing else of the store changes but the record's `updated_at`.
    pub fn update_password(&mut self, user_id: &str, new_password: &str, now: u64) -> (r: Result<
        (),
        AuthError,
    >)
        requires
            old(self).wf(),
        ensures
            final(self).wf(),
            first_index(old(self)@, by_id(user_id@)) is None <==> r == Err::<(), AuthError>(
                AuthError::NotFound,
            ),
            match r {
                Ok(_) => {
                    let i = first_index(old(self)@, by_id(user_id@))->0;
                    let hash = final(self)@[i].password_hash;
                    &&& final(self)@ == spec_set_password_hash(old(self)@, user_id@, hash, now)
                    &&& hash != new_password@
                    &&& password_verdict(hash, new_password@) == Ok::<bool, AuthError>(true)
                },
                Err(e) => final(self)@ == old(self)@ && (e == AuthError::NotFound || e
                    == AuthError::Internal),
            },
    {
        if self.position_by_id(user_id).is_none() {
            return Err(AuthError::NotFound);
        }
        let password_hash = match hasher::hash(new_password) {
            Ok(h) => h,
            Err(_) => {
                return Err(AuthError::Internal);
            },
        };
        if password_hash.as_str().is_empty() {
            return Err(AuthError::Internal);
        }
        proof {
            lemma_first_index_found(self@, by_id(user_id@), 0);
        }
        self.set_password_hash(user_id, password_hash, now);
        Ok(())
    }
}

/// Whether a login attempt at `now` on this record is refused before the
/// password is looked at.
pub fn is_locked(user: &AuthUser, now: u64) -> (r: bool)
    ensures
        r == is_locked_at(lock_of(user@), now),
{
    LockState::from_record(user.failed_login_attempts, user.locked_until).is_locked(now)
}

} // verus!
