//! Single-use artifact lifecycles: verification codes proving email
//! ownership and password-reset tokens. Issuance replaces any live artifact
//! for the same user; consumption invalidates the artifact and applies its
//! effect in the same operation, so no interleaving can observe a partially
//! applied state or consume one artifact twice.

use vstd::prelude::*;
use crate::errors::AuthError;
use crate::store::{
    AuthStore, User, VerificationCode, ResetToken, has_email, clone_user,
    lemma_pair_unique_after_update,
};
use crate::text::{norm_email, normalize_email, str_eq, opt_str_view};
use vstd::string::StringExecFns;
use vstd::pervasive::VecAdditionalExecFns;

verus! {

/// Keeps the rows that do not belong to this user.
pub open spec fn not_user_code(user_id: i32) -> spec_fn(VerificationCode) -> bool {
    |c: VerificationCode| c.user_id != user_id
}

/// Keeps the rows that do not belong to this user.
pub open spec fn not_user_token(user_id: i32) -> spec_fn(ResetToken) -> bool {
    |t: ResetToken| t.user_id != user_id
}

/// Keeps the rows that neither belong to this user nor carry this token.
pub open spec fn other_token(user_id: i32, token: Seq<char>) -> spec_fn(ResetToken) -> bool {
    |t: ResetToken| t.user_id != user_id && t.token@ != token
}

/// Every element of a filtered sequence occurs in the original.
proof fn lemma_filter_membership<T>(s: Seq<T>, pred: spec_fn(T) -> bool)
    ensures
        forall|k: int|
            0 <= k < s.filter(pred).len() ==> exists|i: int|
                0 <= i < s.len() && s[i] == #[trigger] s.filter(pred)[k],
    decreases s.len(),
{
    reveal(Seq::filter);
    if s.len() > 0 {
        lemma_filter_membership(s.drop_last(), pred);
        let f = s.filter(pred);
        let fd = s.drop_last().filter(pred);
        assert forall|k: int| 0 <= k < f.len() implies exists|i: int|
            0 <= i < s.len() && s[i] == #[trigger] f[k] by {
            if pred(s.last()) && k == f.len() - 1 {
                assert(s[s.len() - 1] == f[k]);
            } else {
                assert(f[k] == fd[k]);
                let i = choose|i: int| 0 <= i < s.drop_last().len() && s.drop_last()[i] == fd[k];
                assert(s[i] == f[k]);
            }
        }
    }
}

/// Filtering preserves any pairwise relation among the elements.
proof fn lemma_filter_pairwise<T>(s: Seq<T>, pred: spec_fn(T) -> bool, r: spec_fn(T, T) -> bool)
    requires
        forall|i: int, j: int| 0 <= i < j < s.len() ==> r(#[trigger] s[i], #[trigger] s[j]),
    ensures
        forall|i: int, j: int|
            0 <= i < j < s.filter(pred).len() ==> r(
                #[trigger] s.filter(pred)[i],
                #[trigger] s.filter(pred)[j],
            ),
    decreases s.len(),
{
    reveal(Seq::filter);
    if s.len() > 0 {
        let d = s.drop_last();
        assert forall|i: int, j: int| 0 <= i < j < d.len() implies r(
            #[trigger] d[i],
            #[trigger] d[j],
        ) by {
            assert(d[i] == s[i] && d[j] == s[j]);
        }
        lemma_filter_pairwise(d, pred, r);
        lemma_filter_membership(d, pred);
        let f = s.filter(pred);
        let fd = d.filter(pred);
        if pred(s.last()) {
            assert forall|i: int, j: int| 0 <= i < j < f.len() implies r(
                #[trigger] f[i],
                #[trigger] f[j],
            ) by {
                if j == f.len() - 1 {
                    assert(f[i] == fd[i]);
                    let wi = choose|w: int| 0 <= w < d.len() && d[w] == fd[i];
                    assert(r(s[wi], s[s.len() - 1]));
                } else {
                    assert(f[i] == fd[i] && f[j] == fd[j]);
                }
            }
        }
    }
}

/// Copy a verification-code row.
fn clone_code(c: &VerificationCode) -> (r: VerificationCode)
    ensures
        r == *c,
{
    VerificationCode { user_id: c.user_id, code: c.code.clone(), expires_at: c.expires_at }
}

/// Copy a reset-token row.
fn clone_token(t: &ResetToken) -> (r: ResetToken)
    ensures
        r == *t,
{
    ResetToken {
        user_id: t.user_id,
        token: t.token.clone(),
        expires_at: t.expires_at,
        is_used: t.is_used,
    }
}

/// The code rows that do not belong to `user_id`.
fn retain_codes_except_user(v: &Vec<VerificationCode>, user_id: i32) -> (r: Vec<VerificationCode>)
    ensures
        r@ == v@.filter(not_user_code(user_id)),
{
    let pred = Ghost(not_user_code(user_id));
    let n = v.len();
    let mut out: Vec<VerificationCode> = Vec::new();
    let mut i: usize = 0;
    while i < n
        invariant
            0 <= i <= n,
            n == v@.len(),
            pred@ == not_user_code(user_id),
            out@ == v@.subrange(0, i as int).filter(pred@),
        decreases n - i,
    {
        proof {
            reveal(Seq::filter);
            assert(v@.subrange(0, i + 1).drop_last() =~= v@.subrange(0, i as int));
            assert(v@.subrange(0, i + 1).last() == v@[i as int]);
        }
        if v[i].user_id != user_id {
            out.push(clone_code(&v[i]));
        }
        i = i + 1;
    }
    proof {
        assert(v@.subrange(0, n as int) =~= v@);
    }
    out
}

/// The token rows that do not belong to `user_id`.
fn retain_tokens_except_user(v: &Vec<ResetToken>, user_id: i32) -> (r: Vec<ResetToken>)
    ensures
        r@ == v@.filter(not_user_token(user_id)),
{
    let pred = Ghost(not_user_token(user_id));
    let n = v.len();
    let mut out: Vec<ResetToken> = Vec::new();
    let mut i: usize = 0;
    while i < n
        invariant
            0 <= i <= n,
            n == v@.len(),
            pred@ == not_user_token(user_id),
            out@ == v@.subrange(0, i as int).filter(pred@),
        decreases n - i,
    {
        proof {
            reveal(Seq::filter);
            assert(v@.subrange(0, i + 1).drop_last() =~= v@.subrange(0, i as int));
            assert(v@.subrange(0, i + 1).last() == v@[i as int]);
        }
        if v[i].user_id != user_id {
            out.push(clone_token(&v[i]));
        }
        i = i + 1;
    }
    proof {
        assert(v@.subrange(0, n as int) =~= v@);
    }
    out
}

/// The token rows that neither belong to `user_id` nor carry `token`.
fn retain_other_tokens(v: &Vec<ResetToken>, user_id: i32, token: &str) -> (r: Vec<ResetToken>)
    ensures
        r@ == v@.filter(other_token(user_id, token@)),
{
    let pred = Ghost(other_token(user_id, token@));
    let n = v.len();
    let mut out: Vec<ResetToken> = Vec::new();
    let mut i: usize = 0;
    while i < n
        invariant
            0 <= i <= n,
            n == v@.len(),
            pred@ == other_token(user_id, token@),
            out@ == v@.subrange(0, i as int).filter(pred@),
        decreases n - i,
    {
        proof {
            reveal(Seq::filter);
            assert(v@.subrange(0, i + 1).drop_last() =~= v@.subrange(0, i as int));
            assert(v@.subrange(0, i + 1).last() == v@[i as int]);
        }
        if v[i].user_id != user_id && !str_eq(v[i].token.as_str(), token) {
            out.push(clone_token(&v[i]));
        }
        i = i + 1;
    }
    proof {
        assert(v@.subrange(0, n as int) =~= v@);
    }
    out
}

/// Whether a code row is a live match for this user, code and moment.
pub open spec fn code_matches(c: VerificationCode, uid: i32, code: Seq<char>, now: int) -> bool {
    c.user_id == uid && c.code@ == code && c.expires_at > now
}

/// Whether any live matching code row exists.
pub open spec fn has_live_code(
    s: Seq<VerificationCode>,
    uid: i32,
    code: Seq<char>,
    now: int,
) -> bool {
    exists|k: int| 0 <= k < s.len() && code_matches(#[trigger] s[k], uid, code, now)
}

/// Whether a reset-token row can still authorize a password change.
pub open spec fn token_usable(t: ResetToken, token: Seq<char>, now: int) -> bool {
    t.token@ == token && !t.is_used && t.expires_at > now
}

/// Whether any usable row carries this token.
pub open spec fn has_usable_token(s: Seq<ResetToken>, token: Seq<char>, now: int) -> bool {
    exists|k: int| 0 <= k < s.len() && token_usable(#[trigger] s[k], token, now)
}

impl AuthStore {
    /// Index of a live code row matching this user, code and moment.
    fn find_live_code_index(&self, uid: i32, code: &str, now: i64) -> (r: Option<usize>)
        ensures
            match r {
                Some(k) => k < self.codes@.len() && code_matches(
                    self.codes@[k as int],
                    uid,
                    code@,
                    now as int,
                ),
                None => !has_live_code(self.codes@, uid, code@, now as int),
            },
    {
        let n = self.codes.len();
        let mut i: usize = 0;
        while i < n
            invariant
                0 <= i <= n,
                n == self.codes@.len(),
                forall|j: int|
                    0 <= j < i ==> !code_matches(#[trigger] self.codes@[j], uid, code@, now as int),
            decreases n - i,
        {
            let c = &self.codes[i];
            if c.user_id == uid && c.expires_at > now && str_eq(c.code.as_str(), code) {
                return Some(i);
            }
            i = i + 1;
        }
        None
    }

    /// Index of a still-usable row carrying this token.
    fn find_usable_token_index(&self, token: &str, now: i64) -> (r: Option<usize>)
        ensures
            match r {
                Some(k) => k < self.reset_tokens@.len() && token_usable(
                    self.reset_tokens@[k as int],
                    token@,
                    now as int,
                ),
                None => !has_usable_token(self.reset_tokens@, token@, now as int),
            },
    {
        let n = self.reset_tokens.len();
        let mut i: usize = 0;
        while i < n
            invariant
                0 <= i <= n,
                n == self.reset_tokens@.len(),
                forall|j: int|
                    0 <= j < i ==> !token_usable(#[trigger] self.reset_tokens@[j], token@, now as int),
            decreases n - i,
        {
            let t = &self.reset_tokens[i];
            if !t.is_used && t.expires_at > now && str_eq(t.token.as_str(), token) {
                return Some(i);
            }
            i = i + 1;
        }
        None
    }

    /// Consume a verification code: look the user up by email, and if a live
    /// matching code exists, delete it and mark the email verified — both in
    /// this one operation, so no partial application is ever observable. A
    /// missing, mismatched or expired code is a plain negative outcome
    /// (`Ok((_, false))`) that mutates nothing. Returns the user's index
    /// beside the outcome.
    pub fn verify_code_at(&mut self, email: &str, code: &str, now: i64) -> (r: Result<
        (usize, bool),
        AuthError,
    >)
        requires
            old(self).wf(),
        ensures
            final(self).wf(),
            match r {
                Ok((ui, consumed)) => {
                    let e = norm_email(email@);
                    let uid = old(self).users@[ui as int].id;
                    &&& ui < old(self).users@.len()
                    &&& old(self).users@[ui as int].email@ == e
                    &&& if consumed {
                        let u0 = old(self).users@[ui as int];
                        let u1 = final(self).users@[ui as int];
                        &&& has_live_code(old(self).codes@, uid, code@, now as int)
                        &&& final(self).codes@ == old(self).codes@.filter(not_user_code(uid))
                        &&& final(self).users@.len() == old(self).users@.len()
                        &&& forall|j: int|
                            0 <= j < old(self).users@.len() && j != ui ==> final(self).users@[j]
                                == old(self).users@[j]
                        &&& u1.id == u0.id
                        &&& u1.email == u0.email
                        &&& u1.username == u0.username
                        &&& u1.password_hash == u0.password_hash
                        &&& u1.role == u0.role
                        &&& u1.oauth_provider == u0.oauth_provider
                        &&& u1.oauth_id == u0.oauth_id
                        &&& u1.profile_picture_url == u0.profile_picture_url
                        &&& u1.is_email_verified == true
                        &&& u1.created_at == u0.created_at
                        &&& u1.updated_at == now
                        &&& final(self).reset_tokens@ == old(self).reset_tokens@
                        &&& final(self).next_id == old(self).next_id
                    } else {
                        &&& !has_live_code(old(self).codes@, uid, code@, now as int)
                        &&& *final(self) == *old(self)
                    }
                },
                Err(AuthError::UserNotFound) => !has_email(old(self).users@, norm_email(email@))
                    && *final(self) == *old(self),
                Err(_) => false,
            },
    {
        let e = normalize_email(email);
        let ui = match self.find_index_by_email(e.as_str()) {
            Some(i) => i,
            None => {
                return Err(AuthError::UserNotFound);
            },
        };
        let uid = self.users[ui].id;
        match self.find_live_code_index(uid, code, now) {
            Some(_) => {},
            None => {
                return Ok((ui, false));
            },
        }
        let kept = retain_codes_except_user(&self.codes, uid);
        proof {
            lemma_filter_pairwise(
                self.codes@,
                not_user_code(uid),
                |a: VerificationCode, b: VerificationCode| a.user_id != b.user_id,
            );
        }
        self.codes = kept;
        let u0 = clone_user(&self.users[ui]);
        let u1 = User {
            id: u0.id,
            email: u0.email,
            username: u0.username,
            password_hash: u0.password_hash,
            role: u0.role,
            oauth_provider: u0.oauth_provider,
            oauth_id: u0.oauth_id,
            profile_picture_url: u0.profile_picture_url,
            is_email_verified: true,
            created_at: u0.created_at,
            updated_at: now,
        };
        self.users.set(ui, u1);
        proof {
            lemma_pair_unique_after_update(old(self).users@, self.users@, ui as int);
        }
        Ok((ui, true))
    }

    /// Issue a password-reset token. An email that resolves to no user is a
    /// deliberate no-op (`None`), not an error, so account existence does
    /// not leak. Otherwise any prior token of that user — and any stale row
    /// carrying the same token string — is replaced by the fresh unused row.
    pub fn create_reset_token_at(&mut self, email: &str, token: &str, expires_at: i64) -> (r:
        Option<usize>)
        requires
            old(self).wf(),
        ensures
            final(self).wf(),
            match r {
                Some(ui) => {
                    let e = norm_email(email@);
                    let uid = old(self).users@[ui as int].id;
                    &&& ui < old(self).users@.len()
                    &&& old(self).users@[ui as int].email@ == e
                    &&& final(self).reset_tokens@.drop_last() == old(self).reset_tokens@.filter(
                        other_token(uid, token@),
                    )
                    &&& final(self).reset_tokens@.len() == old(self).reset_tokens@.filter(
                        other_token(uid, token@),
                    ).len() + 1
                    &&& final(self).reset_tokens@.last().user_id == uid
                    &&& final(self).reset_tokens@.last().token@ == token@
                    &&& final(self).reset_tokens@.last().expires_at == expires_at
                    &&& final(self).reset_tokens@.last().is_used == false
                    &&& final(self).users@ == old(self).users@
                    &&& final(self).codes@ == old(self).codes@
                    &&& final(self).next_id == old(self).next_id
                },
                None => !has_email(old(self).users@, norm_email(email@)) && *final(self) == *old(
                    self,
                ),
            },
    {
        let e = normalize_email(email);
        let ui = match self.find_index_by_email(e.as_str()) {
            Some(i) => i,
            None => {
                return None;
            },
        };
        let uid = self.users[ui].id;
        let kept = retain_other_tokens(&self.reset_tokens, uid, token);
        proof {
            lemma_filter_pairwise(
                self.reset_tokens@,
                other_token(uid, token@),
                |a: ResetToken, b: ResetToken| a.user_id != b.user_id,
            );
            lemma_filter_pairwise(
                self.reset_tokens@,
                other_token(uid, token@),
                |a: ResetToken, b: ResetToken| a.token@ != b.token@,
            );
        }
        let ghost pre_tokens = self.reset_tokens@;
        self.reset_tokens = kept;
        self.reset_tokens.push(
            ResetToken { user_id: uid, token: String::from_str(token), expires_at, is_used: false },
        );
        proof {
            assert forall|i: int, j: int|
                0 <= i < j < self.reset_tokens@.len() implies (
            #[trigger] self.reset_tokens@[i]).user_id != (#[trigger] self.reset_tokens@[j]).user_id
                && self.reset_tokens@[i].token@ != self.reset_tokens@[j].token@ by {
                if j == self.reset_tokens@.len() - 1 {
                    pre_tokens.lemma_filter_pred(other_token(uid, token@), i);
                }
            }
        }
        Some(ui)
    }

    /// Consume a reset token: the lookup, the validity check (unused and
    /// unexpired) and the transition to used happen in this one operation,
    /// so two attempts can never both succeed on the same token. Yields the
    /// indices of the owning user and of the consumed row; unknown, used or
    /// expired tokens fail uniformly.
    pub fn consume_reset_token_at(&mut self, token: &str, now: i64) -> (r: Result<
        (usize, usize),
        AuthError,
    >)
        requires
            old(self).wf(),
        ensures
            final(self).wf(),
            match r {
                Ok((ui, ti)) => {
                    let t0 = old(self).reset_tokens@[ti as int];
                    let t1 = final(self).reset_tokens@[ti as int];
                    &&& ti < old(self).reset_tokens@.len()
                    &&& token_usable(t0, token@, now as int)
                    &&& ui < old(self).users@.len()
                    &&& old(self).users@[ui as int].id == t0.user_id
                    &&& final(self).reset_tokens@.len() == old(self).reset_tokens@.len()
                    &&& forall|j: int|
                        0 <= j < old(self).reset_tokens@.len() && j != ti
                            ==> final(self).reset_tokens@[j] == old(self).reset_tokens@[j]
                    &&& t1.user_id == t0.user_id
                    &&& t1.token == t0.token
                    &&& t1.expires_at == t0.expires_at
                    &&& t1.is_used == true
                    &&& final(self).users@ == old(self).users@
                    &&& final(self).codes@ == old(self).codes@
                    &&& final(self).next_id == old(self).next_id
                },
                Err(AuthError::ResetTokenInvalid) => !has_usable_token(
                    old(self).reset_tokens@,
                    token@,
                    now as int,
                ) && *final(self) == *old(self),
                Err(AuthError::UserNotFound) => {
                    &&& has_usable_token(old(self).reset_tokens@, token@, now as int)
                    &&& forall|k: int, j: int|
                        0 <= k < old(self).reset_tokens@.len() && token_usable(
                            #[trigger] old(self).reset_tokens@[k],
                            token@,
                            now as int,
                        ) && 0 <= j < old(self).users@.len() ==> (#[trigger] old(self).users@[j]).id
                            != old(self).reset_tokens@[k].user_id
                    &&& *final(self) == *old(self)
                },
                Err(_) => false,
            },
    {
        let ti = match self.find_usable_token_index(token, now) {
            Some(k) => k,
            None => {
                return Err(AuthError::ResetTokenInvalid);
            },
        };
        let uid = self.reset_tokens[ti].user_id;
        let ui = match self.find_index_by_id(uid) {
            Some(i) => i,
            None => {
                proof {
                    assert forall|k: int, j: int|
                        0 <= k < self.reset_tokens@.len() && token_usable(
                            #[trigger] self.reset_tokens@[k],
                            token@,
                            now as int,
                        ) && 0 <= j < self.users@.len() implies (#[trigger] self.users@[j]).id
                        != self.reset_tokens@[k].user_id by {
                        if k != ti {
                            assert(self.reset_tokens@[k].token@ == self.reset_tokens@[ti as int].token@);
                        }
                    }
                }
                return Err(AuthError::UserNotFound);
            },
        };
        let t0 = clone_token(&self.reset_tokens[ti]);
        let t1 = ResetToken {
            user_id: t0.user_id,
            token: t0.token,
            expires_at: t0.expires_at,
            is_used: true,
        };
        self.reset_tokens.set(ti, t1);
        Ok((ui, ti))
    }

    /// Replace a user's password credential with the given digest and
    /// invalidate every reset token still standing for that user.
    pub fn set_password_hash(&mut self, user_id: i32, password_hash: &str, now: i64) -> (r: Result<
        usize,
        AuthError,
    >)
        requires
            old(self).wf(),
        ensures
            final(self).wf(),
            match r {
                Ok(ui) => {
                    let u0 = old(self).users@[ui as int];
                    let u1 = final(self).users@[ui as int];
                    &&& ui < old(self).users@.len()
                    &&& u0.id == user_id
                    &&& final(self).users@.len() == old(self).users@.len()
                    &&& forall|j: int|
                        0 <= j < old(self).users@.len() && j != ui ==> final(self).users@[j] == old(
                            self,
                        ).users@[j]
                    &&& u1.id == u0.id
                    &&& u1.email == u0.email
                    &&& u1.username == u0.username
                    &&& opt_str_view(u1.password_hash) == Option::Some(password_hash@)
                    &&& u1.role == u0.role
                    &&& u1.oauth_provider == u0.oauth_provider
                    &&& u1.oauth_id == u0.oauth_id
                    &&& u1.profile_picture_url == u0.profile_picture_url
                    &&& u1.is_email_verified == u0.is_email_verified
                    &&& u1.created_at == u0.created_at
                    &&& u1.updated_at == now
                    &&& final(self).reset_tokens@ == old(self).reset_tokens@.filter(
                        not_user_token(user_id),
                    )
                    &&& final(self).codes@ == old(self).codes@
                    &&& final(self).next_id == old(self).next_id
                },
                Err(AuthError::UserNotFound) => {
                    &&& forall|j: int|
                        0 <= j < old(self).users@.len() ==> (#[trigger] old(self).users@[j]).id
                            != user_id
                    &&& *final(self) == *old(self)
                },
                Err(_) => false,
            },
    {
        let ui = match self.find_index_by_id(user_id) {
            Some(i) => i,
            None => {
                return Err(AuthError::UserNotFound);
            },
        };
        let u0 = clone_user(&self.users[ui]);
        let u1 = User {
            id: u0.id,
            email: u0.email,
            username: u0.username,
            password_hash: Some(String::from_str(password_hash)),
            role: u0.role,
            oauth_provider: u0.oauth_provider,
            oauth_id: u0.oauth_id,
            profile_picture_url: u0.profile_picture_url,
            is_email_verified: u0.is_email_verified,
            created_at: u0.created_at,
            updated_at: now,
        };
        self.users.set(ui, u1);
        proof {
            lemma_pair_unique_after_update(old(self).users@, self.users@, ui as int);
            lemma_filter_pairwise(
                self.reset_tokens@,
                not_user_token(user_id),
                |a: ResetToken, b: ResetToken| a.user_id != b.user_id,
            );
            lemma_filter_pairwise(
                self.reset_tokens@,
                not_user_token(user_id),
                |a: ResetToken, b: ResetToken| a.token@ != b.token@,
            );
        }
        let kept = retain_tokens_except_user(&self.reset_tokens, user_id);
        self.reset_tokens = kept;
        Ok(ui)
    }

    /// Issue a verification code for a user: any live code for that user is
    /// replaced, so at most one code is ever valid per account.
    pub fn store_verification_code_at(&mut self, user_id: i32, code: &str, expires_at: i64)
        requires
            old(self).wf(),
        ensures
            final(self).wf(),
            final(self).codes@.drop_last() == old(self).codes@.filter(not_user_code(user_id)),
            final(self).codes@.len() == old(self).codes@.filter(not_user_code(user_id)).len() + 1,
            final(self).codes@.last().user_id == user_id,
            final(self).codes@.last().code@ == code@,
            final(self).codes@.last().expires_at == expires_at,
            final(self).users@ == old(self).users@,
            final(self).reset_tokens@ == old(self).reset_tokens@,
            final(self).next_id == old(self).next_id,
    {
        let kept = retain_codes_except_user(&self.codes, user_id);
        proof {
            lemma_filter_pairwise(
                self.codes@,
                not_user_code(user_id),
                |a: VerificationCode, b: VerificationCode| a.user_id != b.user_id,
            );
        }
        let ghost pre_codes = self.codes@;
        self.codes = kept;
        self.codes.push(VerificationCode { user_id, code: String::from_str(code), expires_at });
        proof {
            assert forall|i: int, j: int|
                0 <= i < j < self.codes@.len() implies (#[trigger] self.codes@[i]).user_id != (
                #[trigger] self.codes@[j]).user_id by {
                if j == self.codes@.len() - 1 {
                    pre_codes.lemma_filter_pred(not_user_code(user_id), i);
                }
            }
        }
    }
}

} // verus!
