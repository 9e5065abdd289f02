//! The identity store: the durable user table together with the two
//! single-use challenge tables (verification codes and password reset
//! tokens), and the resolver operations that look up, create and merge user
//! records across the three lookup keys.
//!
//! `AuthStore::wf` is the data-model invariant: surrogate ids are unique and
//! increasing, emails are stored normalized and are unique, usernames are
//! unique where present, OAuth `(provider, id)` pairs are unique where
//! present, every role is one of the two known roles, at most one live
//! verification code and one reset token exist per user, and reset-token
//! strings never collide. Every mutating operation preserves it.

use vstd::prelude::*;
use vstd::pervasive::VecAdditionalExecFns;
use vstd::string::StringExecFns;
use crate::errors::AuthError;
use crate::text::{norm_email, normalize_email, local_part, email_local_part, opt_str_view, str_eq};

verus! {

/// The durable identity record.
pub struct User {
    pub id: i32,
    pub email: String,
    pub username: Option<String>,
    pub password_hash: Option<String>,
    pub role: String,
    pub oauth_provider: Option<String>,
    pub oauth_id: Option<String>,
    pub profile_picture_url: Option<String>,
    pub is_email_verified: bool,
    pub created_at: i64,
    pub updated_at: i64,
}

/// A live proof-of-email-ownership challenge; at most one per user.
pub struct VerificationCode {
    pub user_id: i32,
    pub code: String,
    pub expires_at: i64,
}

/// A single-use token authorizing a password change.
pub struct ResetToken {
    pub user_id: i32,
    pub token: String,
    pub expires_at: i64,
    pub is_used: bool,
}

/// The shared state every request operates on.
pub struct AuthStore {
    pub users: Vec<User>,
    pub codes: Vec<VerificationCode>,
    pub reset_tokens: Vec<ResetToken>,
    pub next_id: i32,
}

/// The two roles the data model admits.
pub open spec fn is_role(r: Seq<char>) -> bool {
    r == "user"@ || r == "admin"@
}

/// Whether a user record carries the given OAuth identity.
pub open spec fn oauth_matches(u: User, provider: Seq<char>, oauth_id: Seq<char>) -> bool {
    &&& u.oauth_provider is Some
    &&& u.oauth_provider->0@ == provider
    &&& u.oauth_id is Some
    &&& u.oauth_id->0@ == oauth_id
}

/// Whether some record in `s` stores exactly this (normalized) email.
pub open spec fn has_email(s: Seq<User>, email: Seq<char>) -> bool {
    exists|i: int| 0 <= i < s.len() && (#[trigger] s[i]).email@ == email
}

/// Whether some record in `s` holds this username.
pub open spec fn has_username(s: Seq<User>, username: Seq<char>) -> bool {
    exists|i: int|
        0 <= i < s.len() && (#[trigger] s[i]).username is Some && s[i].username->0@ == username
}

/// Whether some record in `s` carries this OAuth identity.
pub open spec fn has_oauth(s: Seq<User>, provider: Seq<char>, oauth_id: Seq<char>) -> bool {
    exists|i: int| 0 <= i < s.len() && oauth_matches(#[trigger] s[i], provider, oauth_id)
}

/// A user has completed registration once it carries a password credential,
/// an OAuth credential, or both.
pub open spec fn has_credential(u: User) -> bool {
    u.password_hash is Some || (u.oauth_provider is Some && u.oauth_id is Some)
}

impl AuthStore {
    /// The data-model invariant.
    pub open spec fn wf(self) -> bool {
        &&& 0 < self.next_id
        &&& forall|i: int|
            0 <= i < self.users@.len() ==> 0 < (#[trigger] self.users@[i]).id < self.next_id
        &&& forall|i: int, j: int|
            0 <= i < j < self.users@.len() ==> (#[trigger] self.users@[i]).id < (
            #[trigger] self.users@[j]).id
        &&& forall|i: int|
            0 <= i < self.users@.len() ==> (#[trigger] self.users@[i]).email@ == norm_email(
                self.users@[i].email@,
            )
        &&& forall|i: int, j: int|
            0 <= i < j < self.users@.len() ==> (#[trigger] self.users@[i]).email@ != (
            #[trigger] self.users@[j]).email@
        &&& forall|i: int, j: int|
            0 <= i < j < self.users@.len() && (#[trigger] self.users@[i]).username is Some && (
            #[trigger] self.users@[j]).username is Some ==> self.users@[i].username->0@
                != self.users@[j].username->0@
        &&& forall|i: int, j: int, p: Seq<char>, q: Seq<char>|
            0 <= i < j < self.users@.len() && #[trigger] oauth_matches(self.users@[i], p, q)
                ==> !#[trigger] oauth_matches(self.users@[j], p, q)
        &&& forall|i: int| 0 <= i < self.users@.len() ==> is_role((#[trigger] self.users@[i]).role@)
        &&& forall|i: int, j: int|
            0 <= i < j < self.codes@.len() ==> (#[trigger] self.codes@[i]).user_id != (
            #[trigger] self.codes@[j]).user_id
        &&& forall|i: int, j: int|
            0 <= i < j < self.reset_tokens@.len() ==> (#[trigger] self.reset_tokens@[i]).token@ != (
            #[trigger] self.reset_tokens@[j]).token@
        &&& forall|i: int, j: int|
            0 <= i < j < self.reset_tokens@.len() ==> (#[trigger] self.reset_tokens@[i]).user_id
                != (#[trigger] self.reset_tokens@[j]).user_id
    }

    /// An empty store, the state before any registration.
    pub fn new() -> (r: AuthStore)
        ensures
            r.wf(),
            r.users@.len() == 0,
            r.codes@.len() == 0,
            r.reset_tokens@.len() == 0,
            r.next_id == 1,
    {
        AuthStore { users: Vec::new(), codes: Vec::new(), reset_tokens: Vec::new(), next_id: 1 }
    }

    /// Index of the record storing exactly this (already normalized) email.
    pub(crate) fn find_index_by_email(&self, email: &str) -> (r: Option<usize>)
        ensures
            match r {
                Some(i) => i < self.users@.len() && self.users@[i as int].email@ == email@,
                None => !has_email(self.users@, email@),
            },
    {
        let n = self.users.len();
        let mut i: usize = 0;
        while i < n
            invariant
                0 <= i <= n,
                n == self.users@.len(),
                forall|j: int| 0 <= j < i ==> (#[trigger] self.users@[j]).email@ != email@,
            decreases n - i,
        {
            if str_eq(self.users[i].email.as_str(), email) {
                return Some(i);
            }
            i = i + 1;
        }
        None
    }

    /// Index of the record with this surrogate id.
    pub(crate) fn find_index_by_id(&self, id: i32) -> (r: Option<usize>)
        ensures
            match r {
                Some(i) => i < self.users@.len() && self.users@[i as int].id == id,
                None => forall|j: int| 0 <= j < self.users@.len() ==> (#[trigger] self.users@[j]).id != id,
            },
    {
        let n = self.users.len();
        let mut i: usize = 0;
        while i < n
            invariant
                0 <= i <= n,
                n == self.users@.len(),
                forall|j: int| 0 <= j < i ==> (#[trigger] self.users@[j]).id != id,
            decreases n - i,
        {
            if self.users[i].id == id {
                return Some(i);
            }
            i = i + 1;
        }
        None
    }

    /// Index of the record carrying this OAuth identity.
    pub(crate) fn find_index_by_oauth(&self, provider: &str, oauth_id: &str) -> (r: Option<usize>)
        ensures
            match r {
                Some(i) => i < self.users@.len() && oauth_matches(
                    self.users@[i as int],
                    provider@,
                    oauth_id@,
                ),
                None => !has_oauth(self.users@, provider@, oauth_id@),
            },
    {
        let n = self.users.len();
        let mut i: usize = 0;
        while i < n
            invariant
                0 <= i <= n,
                n == self.users@.len(),
                forall|j: int|
                    0 <= j < i ==> !oauth_matches(#[trigger] self.users@[j], provider@, oauth_id@),
            decreases n - i,
        {
            let u = &self.users[i];
            let matches_here = match (&u.oauth_provider, &u.oauth_id) {
                (Some(p), Some(oid)) => str_eq(p.as_str(), provider) && str_eq(
                    oid.as_str(),
                    oauth_id,
                ),
                _ => false,
            };
            if matches_here {
                return Some(i);
            }
            i = i + 1;
        }
        None
    }

    /// Index of the record holding this username.
    pub(crate) fn find_index_by_username(&self, username: &str) -> (r: Option<usize>)
        ensures
            match r {
                Some(i) => i < self.users@.len() && self.users@[i as int].username is Some
                    && self.users@[i as int].username->0@ == username@,
                None => !has_username(self.users@, username@),
            },
    {
        let n = self.users.len();
        let mut i: usize = 0;
        while i < n
            invariant
                0 <= i <= n,
                n == self.users@.len(),
                forall|j: int|
                    0 <= j < i ==> !((#[trigger] self.users@[j]).username is Some
                        && self.users@[j].username->0@ == username@),
            decreases n - i,
        {
            let taken = match &self.users[i].username {
                Some(un) => str_eq(un.as_str(), username),
                None => false,
            };
            if taken {
                return Some(i);
            }
            i = i + 1;
        }
        None
    }
}

impl AuthStore {
    /// Create the minimal email-only placeholder record used by multi-step
    /// signup: no credential yet, email unverified, role `user`, username
    /// defaulted to the email's local part unless another record already
    /// holds that name. Fails when a record with the normalized email
    /// already exists, or when the id space is exhausted.
    pub fn create_user_email(&mut self, email: &str, now: i64) -> (r: Result<usize, AuthError>)
        requires
            old(self).wf(),
        ensures
            final(self).wf(),
            match r {
                Ok(i) => {
                    let e = norm_email(email@);
                    let lp = local_part(e);
                    &&& !has_email(old(self).users@, e)
                    &&& old(self).next_id < i32::MAX
                    &&& i == old(self).users@.len()
                    &&& final(self).users@.len() == old(self).users@.len() + 1
                    &&& forall|j: int|
                        0 <= j < old(self).users@.len() ==> final(self).users@[j] == old(
                            self,
                        ).users@[j]
                    &&& ({
                        let u = final(self).users@[i as int];
                        &&& u.id == old(self).next_id
                        &&& u.email@ == e
                        &&& opt_str_view(u.username) == (if has_username(old(self).users@, lp) {
                            Option::<Seq<char>>::None
                        } else {
                            Option::Some(lp)
                        })
                        &&& u.password_hash is None
                        &&& u.role@ == "user"@
                        &&& u.oauth_provider is None
                        &&& u.oauth_id is None
                        &&& u.profile_picture_url is None
                        &&& u.is_email_verified == false
                        &&& u.created_at == now
                        &&& u.updated_at == now
                    })
                    &&& final(self).next_id == old(self).next_id + 1
                    &&& final(self).codes@ == old(self).codes@
                    &&& final(self).reset_tokens@ == old(self).reset_tokens@
                },
                Err(AuthError::EmailAlreadyExists) => has_email(old(self).users@, norm_email(email@))
                    && *final(self) == *old(self),
                Err(AuthError::Internal) => !has_email(old(self).users@, norm_email(email@)) && old(
                    self,
                ).next_id == i32::MAX && *final(self) == *old(self),
                Err(_) => false,
            },
    {
        let e = normalize_email(email);
        match self.find_index_by_email(e.as_str()) {
            Some(_) => {
                return Err(AuthError::EmailAlreadyExists);
            },
            None => {},
        }
        if self.next_id == i32::MAX {
            return Err(AuthError::Internal);
        }
        let lp = email_local_part(e.as_str());
        let username = match self.find_index_by_username(lp.as_str()) {
            Some(_) => None,
            None => Some(lp),
        };
        let u = User {
            id: self.next_id,
            email: e,
            username,
            password_hash: None,
            role: String::from_str("user"),
            oauth_provider: None,
            oauth_id: None,
            profile_picture_url: None,
            is_email_verified: false,
            created_at: now,
            updated_at: now,
        };
        let i = self.users.len();
        proof {
            crate::text::lemma_norm_email_idempotent(email@);
        }
        self.users.push(u);
        self.next_id = self.next_id + 1;
        Ok(i)
    }
}

/// The username after an identity merge: a name the user already holds is
/// never overwritten; a provider-supplied name fills the gap only when no
/// other record already holds it.
pub open spec fn merged_username(
    users: Seq<User>,
    current: Option<Seq<char>>,
    supplied: Option<Seq<char>>,
) -> Option<Seq<char>> {
    if current is Some {
        current
    } else if supplied is Some && !has_username(users, supplied->0) {
        supplied
    } else {
        Option::None
    }
}

/// The profile picture after an identity merge: provider data only fills a
/// gap, never replaces a stored value.
pub open spec fn merged_picture(current: Option<Seq<char>>, supplied: Option<Seq<char>>) -> Option<
    Seq<char>,
> {
    if current is Some {
        current
    } else {
        supplied
    }
}

/// The username given to a user created from an OAuth assertion: the
/// supplied display name if any, else the email local part — unless that
/// candidate is already taken, in which case the new record starts without
/// a username.
pub open spec fn oauth_new_username(
    users: Seq<User>,
    supplied: Option<Seq<char>>,
    email: Seq<char>,
) -> Option<Seq<char>> {
    let cand = if supplied is Some {
        supplied->0
    } else {
        local_part(email)
    };
    if has_username(users, cand) {
        Option::None
    } else {
        Option::Some(cand)
    }
}

/// The outcome of resolving an OAuth assertion against the user table:
/// `post` differs from `pre` exactly at index `i`, the matched or created
/// record, according to the fixed resolution order — (a) exact
/// `(provider, oauth_id)` match, updating only what merging allows; (b)
/// exact email match, attaching the pair and marking the email verified;
/// (c) a fresh record. Provider-supplied username and picture never
/// overwrite stored values; they only fill gaps.
pub open spec fn oauth_merge_post(
    pre: AuthStore,
    post: AuthStore,
    i: int,
    email: Seq<char>,
    provider: Seq<char>,
    oauth_id: Seq<char>,
    supplied_name: Option<Seq<char>>,
    supplied_pic: Option<Seq<char>>,
    now: i64,
) -> bool {
    let e = norm_email(email);
    &&& post.next_id >= pre.next_id
    &&& post.codes@ == pre.codes@
    &&& post.reset_tokens@ == pre.reset_tokens@
    &&& if has_oauth(pre.users@, provider, oauth_id) {
        let u0 = pre.users@[i];
        let u1 = post.users@[i];
        &&& 0 <= i < pre.users@.len()
        &&& oauth_matches(u0, provider, oauth_id)
        &&& post.users@.len() == pre.users@.len()
        &&& forall|j: int| 0 <= j < pre.users@.len() && j != i ==> post.users@[j] == pre.users@[j]
        &&& u1.id == u0.id
        &&& u1.email == u0.email
        &&& opt_str_view(u1.username) == merged_username(
            pre.users@,
            opt_str_view(u0.username),
            supplied_name,
        )
        &&& u1.password_hash == u0.password_hash
        &&& u1.role == u0.role
        &&& u1.oauth_provider == u0.oauth_provider
        &&& u1.oauth_id == u0.oauth_id
        &&& opt_str_view(u1.profile_picture_url) == merged_picture(
            opt_str_view(u0.profile_picture_url),
            supplied_pic,
        )
        &&& u1.is_email_verified == u0.is_email_verified
        &&& u1.created_at == u0.created_at
        &&& u1.updated_at == now
        &&& post.next_id == pre.next_id
    } else if has_email(pre.users@, e) {
        let u0 = pre.users@[i];
        let u1 = post.users@[i];
        &&& 0 <= i < pre.users@.len()
        &&& u0.email@ == e
        &&& post.users@.len() == pre.users@.len()
        &&& forall|j: int| 0 <= j < pre.users@.len() && j != i ==> post.users@[j] == pre.users@[j]
        &&& u1.id == u0.id
        &&& u1.email == u0.email
        &&& opt_str_view(u1.username) == merged_username(
            pre.users@,
            opt_str_view(u0.username),
            supplied_name,
        )
        &&& u1.password_hash == u0.password_hash
        &&& u1.role == u0.role
        &&& opt_str_view(u1.oauth_provider) == Option::Some(provider)
        &&& opt_str_view(u1.oauth_id) == Option::Some(oauth_id)
        &&& opt_str_view(u1.profile_picture_url) == merged_picture(
            opt_str_view(u0.profile_picture_url),
            supplied_pic,
        )
        &&& u1.is_email_verified == true
        &&& u1.created_at == u0.created_at
        &&& u1.updated_at == now
        &&& post.next_id == pre.next_id
    } else {
        let u1 = post.users@[i];
        &&& i == pre.users@.len()
        &&& post.users@.len() == pre.users@.len() + 1
        &&& forall|j: int| 0 <= j < pre.users@.len() ==> post.users@[j] == pre.users@[j]
        &&& u1.id == pre.next_id
        &&& u1.email@ == e
        &&& opt_str_view(u1.username) == oauth_new_username(pre.users@, supplied_name, e)
        &&& u1.password_hash is None
        &&& u1.role@ == "user"@
        &&& opt_str_view(u1.oauth_provider) == Option::Some(provider)
        &&& opt_str_view(u1.oauth_id) == Option::Some(oauth_id)
        &&& opt_str_view(u1.profile_picture_url) == supplied_pic
        &&& u1.is_email_verified == true
        &&& u1.created_at == now
        &&& u1.updated_at == now
        &&& post.next_id == pre.next_id + 1
    }
}

impl AuthStore {
    /// Resolve an OAuth assertion against the user table; the outcome is
    /// exactly `oauth_merge_post` at the returned index. Fails only when a
    /// fresh record would be needed and the id space is exhausted.
    pub fn link_oauth(
        &mut self,
        email: &str,
        provider: &str,
        oauth_id: &str,
        display_name: &Option<String>,
        picture_url: &Option<String>,
        now: i64,
    ) -> (r: Result<usize, AuthError>)
        requires
            old(self).wf(),
        ensures
            final(self).wf(),
            match r {
                Ok(i) => oauth_merge_post(
                    *old(self),
                    *final(self),
                    i as int,
                    email@,
                    provider@,
                    oauth_id@,
                    opt_str_view(*display_name),
                    opt_str_view(*picture_url),
                    now,
                ),
                Err(AuthError::Internal) => !has_oauth(old(self).users@, provider@, oauth_id@)
                    && !has_email(old(self).users@, norm_email(email@)) && old(self).next_id
                    == i32::MAX && *final(self) == *old(self),
                Err(_) => false,
            },
    {
        let e = normalize_email(email);
        let oauth_hit = self.find_index_by_oauth(provider, oauth_id);
        match oauth_hit {
            Some(i) => {
                let u0 = clone_user(&self.users[i]);
                let new_username = self.fill_username(&u0.username, display_name);
                let new_picture = fill_picture(&u0.profile_picture_url, picture_url);
                let u1 = User {
                    id: u0.id,
                    email: u0.email,
                    username: new_username,
                    password_hash: u0.password_hash,
                    role: u0.role,
                    oauth_provider: u0.oauth_provider,
                    oauth_id: u0.oauth_id,
                    profile_picture_url: new_picture,
                    is_email_verified: u0.is_email_verified,
                    created_at: u0.created_at,
                    updated_at: now,
                };
                self.users.set(i, u1);
                return Ok(i);
            },
            None => {},
        }
        let email_hit = self.find_index_by_email(e.as_str());
        match email_hit {
            Some(i) => {
                let u0 = clone_user(&self.users[i]);
                let new_username = self.fill_username(&u0.username, display_name);
                let new_picture = fill_picture(&u0.profile_picture_url, picture_url);
                let u1 = User {
                    id: u0.id,
                    email: u0.email,
                    username: new_username,
                    password_hash: u0.password_hash,
                    role: u0.role,
                    oauth_provider: Some(String::from_str(provider)),
                    oauth_id: Some(String::from_str(oauth_id)),
                    profile_picture_url: new_picture,
                    is_email_verified: true,
                    created_at: u0.created_at,
                    updated_at: now,
                };
                self.users.set(i, u1);
                return Ok(i);
            },
            None => {},
        }
        if self.next_id == i32::MAX {
            return Err(AuthError::Internal);
        }
        let cand = match display_name {
            Some(d) => d.clone(),
            None => email_local_part(e.as_str()),
        };
        let new_username = match self.find_index_by_username(cand.as_str()) {
            Some(_) => None,
            None => Some(cand),
        };
        let new_picture = match picture_url {
            Some(p) => Some(p.clone()),
            None => None,
        };
        let u = User {
            id: self.next_id,
            email: e,
            username: new_username,
            password_hash: None,
            role: String::from_str("user"),
            oauth_provider: Some(String::from_str(provider)),
            oauth_id: Some(String::from_str(oauth_id)),
            profile_picture_url: new_picture,
            is_email_verified: true,
            created_at: now,
            updated_at: now,
        };
        let i = self.users.len();
        proof {
            crate::text::lemma_norm_email_idempotent(email@);
        }
        self.users.push(u);
        self.next_id = self.next_id + 1;
        Ok(i)
    }

    /// Set username and password for the user storing this email, the final
    /// step of multi-step signup. Only succeeds once the email is verified;
    /// fails `NotVerified` otherwise (also when no such user exists, so the
    /// failure does not reveal which), and `UsernameAlreadyExists` when
    /// another record holds the requested name. Takes the already computed
    /// password digest so the store stays free of hashing concerns.
    pub fn complete_profile_store(
        &mut self,
        email: &str,
        username: &str,
        password_hash: &str,
        now: i64,
    ) -> (r: Result<usize, AuthError>)
        requires
            old(self).wf(),
        ensures
            final(self).wf(),
            match r {
                Ok(i) => {
                    let e = norm_email(email@);
                    let u0 = old(self).users@[i as int];
                    let u1 = final(self).users@[i as int];
                    &&& i < old(self).users@.len()
                    &&& u0.email@ == e
                    &&& u0.is_email_verified
                    &&& forall|j: int|
                        0 <= j < old(self).users@.len() && j != i ==> !((
                        #[trigger] old(self).users@[j]).username is Some
                            && old(self).users@[j].username->0@ == username@)
                    &&& final(self).users@.len() == old(self).users@.len()
                    &&& forall|j: int|
                        0 <= j < old(self).users@.len() && j != i ==> final(self).users@[j] == old(
                            self,
                        ).users@[j]
                    &&& u1.id == u0.id
                    &&& u1.email == u0.email
                    &&& opt_str_view(u1.username) == Option::Some(username@)
                    &&& opt_str_view(u1.password_hash) == Option::Some(password_hash@)
                    &&& u1.role == u0.role
                    &&& u1.oauth_provider == u0.oauth_provider
                    &&& u1.oauth_id == u0.oauth_id
                    &&& u1.profile_picture_url == u0.profile_picture_url
                    &&& u1.is_email_verified == u0.is_email_verified
                    &&& u1.created_at == u0.created_at
                    &&& u1.updated_at == now
                    &&& final(self).next_id == old(self).next_id
                    &&& final(self).codes@ == old(self).codes@
                    &&& final(self).reset_tokens@ == old(self).reset_tokens@
                },
                Err(AuthError::NotVerified) => {
                    let e = norm_email(email@);
                    &&& forall|j: int|
                        0 <= j < old(self).users@.len() && (#[trigger] old(self).users@[j]).email@
                            == e ==> !old(self).users@[j].is_email_verified
                    &&& *final(self) == *old(self)
                },
                Err(AuthError::UsernameAlreadyExists) => {
                    let e = norm_email(email@);
                    &&& exists|j: int|
                        0 <= j < old(self).users@.len() && (#[trigger] old(self).users@[j]).username
                            is Some && old(self).users@[j].username->0@ == username@ && old(
                            self,
                        ).users@[j].email@ != e
                    &&& exists|k: int|
                        0 <= k < old(self).users@.len() && (#[trigger] old(self).users@[k]).email@
                            == e && old(self).users@[k].is_email_verified
                    &&& *final(self) == *old(self)
                },
                Err(_) => false,
            },
    {
        let e = normalize_email(email);
        let idx = match self.find_index_by_email(e.as_str()) {
            Some(i) => i,
            None => {
                return Err(AuthError::NotVerified);
            },
        };
        if !self.users[idx].is_email_verified {
            return Err(AuthError::NotVerified);
        }
        match self.find_index_by_username(username) {
            Some(j) => {
                if j != idx {
                    return Err(AuthError::UsernameAlreadyExists);
                }
            },
            None => {},
        }
        let u0 = clone_user(&self.users[idx]);
        let u1 = User {
            id: u0.id,
            email: u0.email,
            username: Some(String::from_str(username)),
            password_hash: Some(String::from_str(password_hash)),
            role: u0.role,
            oauth_provider: u0.oauth_provider,
            oauth_id: u0.oauth_id,
            profile_picture_url: u0.profile_picture_url,
            is_email_verified: u0.is_email_verified,
            created_at: u0.created_at,
            updated_at: now,
        };
        self.users.set(idx, u1);
        proof {
            lemma_pair_unique_after_update(old(self).users@, self.users@, idx as int);
        }
        Ok(idx)
    }

    /// Partial profile update: a supplied username or picture replaces the
    /// stored value, an omitted one leaves it untouched. A username already
    /// held by a different record is refused.
    pub fn update_profile(
        &mut self,
        id: i32,
        username: &Option<String>,
        picture: &Option<String>,
        now: i64,
    ) -> (r: Result<usize, AuthError>)
        requires
            old(self).wf(),
        ensures
            final(self).wf(),
            match r {
                Ok(i) => {
                    let u0 = old(self).users@[i as int];
                    let u1 = final(self).users@[i as int];
                    &&& i < old(self).users@.len()
                    &&& u0.id == id
                    &&& final(self).users@.len() == old(self).users@.len()
                    &&& forall|j: int|
                        0 <= j < old(self).users@.len() && j != i ==> final(self).users@[j] == old(
                            self,
                        ).users@[j]
                    &&& u1.id == u0.id
                    &&& u1.email == u0.email
                    &&& opt_str_view(u1.username) == (match opt_str_view(*username) {
                        Option::Some(un) => Option::Some(un),
                        Option::None => opt_str_view(u0.username),
                    })
                    &&& u1.password_hash == u0.password_hash
                    &&& u1.role == u0.role
                    &&& u1.oauth_provider == u0.oauth_provider
                    &&& u1.oauth_id == u0.oauth_id
                    &&& opt_str_view(u1.profile_picture_url) == (match opt_str_view(*picture) {
                        Option::Some(p) => Option::Some(p),
                        Option::None => opt_str_view(u0.profile_picture_url),
                    })
                    &&& u1.is_email_verified == u0.is_email_verified
                    &&& u1.created_at == u0.created_at
                    &&& u1.updated_at == now
                    &&& final(self).next_id == old(self).next_id
                    &&& final(self).codes@ == old(self).codes@
                    &&& final(self).reset_tokens@ == old(self).reset_tokens@
                },
                Err(AuthError::UserNotFound) => {
                    &&& forall|j: int|
                        0 <= j < old(self).users@.len() ==> (#[trigger] old(self).users@[j]).id
                            != id
                    &&& *final(self) == *old(self)
                },
                Err(AuthError::UsernameAlreadyExists) => {
                    &&& *username is Some
                    &&& exists|j: int|
                        0 <= j < old(self).users@.len() && (#[trigger] old(self).users@[j]).username
                            is Some && old(self).users@[j].username->0@ == username->0@ && old(
                            self,
                        ).users@[j].id != id
                    &&& exists|k: int|
                        0 <= k < old(self).users@.len() && (#[trigger] old(self).users@[k]).id == id
                    &&& *final(self) == *old(self)
                },
                Err(_) => false,
            },
    {
        let idx = match self.find_index_by_id(id) {
            Some(i) => i,
            None => {
                return Err(AuthError::UserNotFound);
            },
        };
        match username {
            Some(un) => {
                match self.find_index_by_username(un.as_str()) {
                    Some(j) => {
                        if j != idx {
                            return Err(AuthError::UsernameAlreadyExists);
                        }
                    },
                    None => {},
                }
            },
            None => {},
        }
        let u0 = clone_user(&self.users[idx]);
        let new_username = match username {
            Some(un) => Some(un.clone()),
            None => u0.username,
        };
        let new_picture = match picture {
            Some(p) => Some(p.clone()),
            None => u0.profile_picture_url,
        };
        let u1 = User {
            id: u0.id,
            email: u0.email,
            username: new_username,
            password_hash: u0.password_hash,
            role: u0.role,
            oauth_provider: u0.oauth_provider,
            oauth_id: u0.oauth_id,
            profile_picture_url: new_picture,
            is_email_verified: u0.is_email_verified,
            created_at: u0.created_at,
            updated_at: now,
        };
        self.users.set(idx, u1);
        proof {
            lemma_pair_unique_after_update(old(self).users@, self.users@, idx as int);
        }
        Ok(idx)
    }

    /// Change a user's role to one of the two known roles.
    pub fn set_role(&mut self, id: i32, role: &str, now: i64) -> (r: Result<usize, AuthError>)
        requires
            old(self).wf(),
        ensures
            final(self).wf(),
            match r {
                Ok(i) => {
                    let u0 = old(self).users@[i as int];
                    let u1 = final(self).users@[i as int];
                    &&& is_role(role@)
                    &&& i < old(self).users@.len()
                    &&& u0.id == id
                    &&& final(self).users@.len() == old(self).users@.len()
                    &&& forall|j: int|
                        0 <= j < old(self).users@.len() && j != i ==> final(self).users@[j] == old(
                            self,
                        ).users@[j]
                    &&& u1.id == u0.id
                    &&& u1.email == u0.email
                    &&& u1.username == u0.username
                    &&& u1.password_hash == u0.password_hash
                    &&& u1.role@ == role@
                    &&& u1.oauth_provider == u0.oauth_provider
                    &&& u1.oauth_id == u0.oauth_id
                    &&& u1.profile_picture_url == u0.profile_picture_url
                    &&& u1.is_email_verified == u0.is_email_verified
                    &&& u1.created_at == u0.created_at
                    &&& u1.updated_at == now
                    &&& final(self).next_id == old(self).next_id
                    &&& final(self).codes@ == old(self).codes@
                    &&& final(self).reset_tokens@ == old(self).reset_tokens@
                },
                Err(AuthError::InvalidRole) => !is_role(role@) && *final(self) == *old(self),
                Err(AuthError::UserNotFound) => {
                    &&& is_role(role@)
                    &&& forall|j: int|
                        0 <= j < old(self).users@.len() ==> (#[trigger] old(self).users@[j]).id
                            != id
                    &&& *final(self) == *old(self)
                },
                Err(_) => false,
            },
    {
        if !(str_eq(role, "user") || str_eq(role, "admin")) {
            return Err(AuthError::InvalidRole);
        }
        let idx = match self.find_index_by_id(id) {
            Some(i) => i,
            None => {
                return Err(AuthError::UserNotFound);
            },
        };
        let u0 = clone_user(&self.users[idx]);
        let u1 = User {
            id: u0.id,
            email: u0.email,
            username: u0.username,
            password_hash: u0.password_hash,
            role: String::from_str(role),
            oauth_provider: u0.oauth_provider,
            oauth_id: u0.oauth_id,
            profile_picture_url: u0.profile_picture_url,
            is_email_verified: u0.is_email_verified,
            created_at: u0.created_at,
            updated_at: now,
        };
        self.users.set(idx, u1);
        proof {
            lemma_pair_unique_after_update(old(self).users@, self.users@, idx as int);
        }
        Ok(idx)
    }

    /// Fill-gap choice of username during a merge.
    fn fill_username(&self, current: &Option<String>, supplied: &Option<String>) -> (r: Option<
        String,
    >)
        ensures
            opt_str_view(r) == merged_username(
                self.users@,
                opt_str_view(*current),
                opt_str_view(*supplied),
            ),
    {
        match current {
            Some(cur) => Some(cur.clone()),
            None => match supplied {
                Some(d) => match self.find_index_by_username(d.as_str()) {
                    Some(_) => None,
                    None => Some(d.clone()),
                },
                None => None,
            },
        }
    }
}

/// Updating one record without touching its OAuth pair keeps the pairs
/// unique.
pub(crate) proof fn lemma_pair_unique_after_update(pre: Seq<User>, post: Seq<User>, idx: int)
    requires
        post.len() == pre.len(),
        0 <= idx < pre.len(),
        forall|j: int| 0 <= j < pre.len() && j != idx ==> post[j] == pre[j],
        post[idx].oauth_provider == pre[idx].oauth_provider,
        post[idx].oauth_id == pre[idx].oauth_id,
        forall|i: int, j: int, p: Seq<char>, q: Seq<char>|
            0 <= i < j < pre.len() && #[trigger] oauth_matches(pre[i], p, q)
                ==> !#[trigger] oauth_matches(pre[j], p, q),
    ensures
        forall|i: int, j: int, p: Seq<char>, q: Seq<char>|
            0 <= i < j < post.len() && #[trigger] oauth_matches(post[i], p, q)
                ==> !#[trigger] oauth_matches(post[j], p, q),
{
    assert forall|i: int, j: int, p: Seq<char>, q: Seq<char>|
        #![trigger oauth_matches(post[i], p, q), oauth_matches(post[j], p, q)]
        0 <= i < j < post.len() && oauth_matches(post[i], p, q)
            implies !oauth_matches(post[j], p, q) by {
        assert(oauth_matches(post[i], p, q) == oauth_matches(pre[i], p, q));
        assert(oauth_matches(post[j], p, q) == oauth_matches(pre[j], p, q));
        assert(!oauth_matches(pre[j], p, q));
    }
}

/// Fill-gap choice of profile picture during a merge.
fn fill_picture(current: &Option<String>, supplied: &Option<String>) -> (r: Option<String>)
    ensures
        opt_str_view(r) == merged_picture(opt_str_view(*current), opt_str_view(*supplied)),
{
    match current {
        Some(cur) => Some(cur.clone()),
        None => match supplied {
            Some(p) => Some(p.clone()),
            None => None,
        },
    }
}

/// Copy a user record, field for field.
pub fn clone_user(u: &User) -> (r: User)
    ensures
        r == *u,
{
    User {
        id: u.id,
        email: u.email.clone(),
        username: u.username.clone(),
        password_hash: u.password_hash.clone(),
        role: u.role.clone(),
        oauth_provider: u.oauth_provider.clone(),
        oauth_id: u.oauth_id.clone(),
        profile_picture_url: u.profile_picture_url.clone(),
        is_email_verified: u.is_email_verified,
        created_at: u.created_at,
        updated_at: u.updated_at,
    }
}

} // verus!
