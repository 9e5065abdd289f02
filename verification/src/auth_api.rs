//! The public authentication flows: registration, login, email
//! verification, profile completion, OAuth sign-in, and the password-reset
//! pair. Each one composes the verified store operations with the
//! credential manager and the token codec, and states exactly which inputs
//! succeed and which error every other input receives.
//!
//! Policy, stated once: a fresh local registration starts with
//! `is_email_verified = false`; the flag turns true only through a
//! verification code or a trusted OAuth assertion.

use vstd::prelude::*;
use crate::config::Env;
use crate::errors::AuthError;
use crate::jwt::{sign, token_claims};
use crate::password::{bcrypt_accepts, hash_password, verify_password};
use crate::store::{
    AuthStore, User, has_credential, has_email, lemma_pair_unique_after_update, clone_user,
};
use crate::text::{opt_str_view, norm_email};
use crate::token_hash::{random_code, random_token};
use vstd::string::StringExecFns;
use vstd::pervasive::VecAdditionalExecFns;

verus! {

pub struct RegisterBody {
    pub email: String,
}

pub struct VerifyCodeBody {
    pub email: String,
    pub code: String,
}

pub struct CompleteProfileBody {
    pub email: String,
    pub username: String,
    pub password: String,
}

pub struct LoginBody {
    pub email: String,
    pub password: String,
}

pub struct GoogleOAuthBody {
    pub email: String,
    pub oauth_id: String,
    pub username: Option<String>,
    pub picture_url: Option<String>,
}

pub struct ForgotPasswordBody {
    pub email: String,
}

pub struct ResetPasswordBody {
    pub token: String,
    pub new_password: String,
}

/// The public view of a user: never the password hash, never the raw OAuth
/// id.
#[derive(Debug)]
pub struct UserResponse {
    pub id: i32,
    pub email: String,
    pub username: Option<String>,
    pub role: String,
    pub profile_picture_url: Option<String>,
    pub is_email_verified: bool,
}

#[derive(Debug)]
pub struct AuthResponse {
    pub token: String,
    pub user: UserResponse,
}

/// Whether a response is the public view of this record.
pub open spec fn user_response_matches(r: UserResponse, u: User) -> bool {
    &&& r.id == u.id
    &&& r.email@ == u.email@
    &&& opt_str_view(r.username) == opt_str_view(u.username)
    &&& r.role@ == u.role@
    &&& opt_str_view(r.profile_picture_url) == opt_str_view(u.profile_picture_url)
    &&& r.is_email_verified == u.is_email_verified
}

/// The public view of a user record.
pub fn user_response_of(u: &User) -> (r: UserResponse)
    ensures
        user_response_matches(r, *u),
{
    UserResponse {
        id: u.id,
        email: u.email.clone(),
        username: u.username.clone(),
        role: u.role.clone(),
        profile_picture_url: u.profile_picture_url.clone(),
        is_email_verified: u.is_email_verified,
    }
}

/// A registration for this email is complete: some record stores the email
/// and carries a credential. Once this holds, `register` refuses the email.
pub open spec fn email_taken(users: Seq<User>, email: Seq<char>) -> bool {
    exists|i: int|
        0 <= i < users.len() && (#[trigger] users[i]).email@ == email && has_credential(users[i])
}

/// Whether this email and password name an account that can log in: the
/// record storing the normalized email holds a password digest accepting
/// the password.
pub open spec fn credentials_ok(users: Seq<User>, email: Seq<char>, password: Seq<char>) -> bool {
    exists|i: int|
        0 <= i < users.len() && (#[trigger] users[i]).email@ == norm_email(email)
            && users[i].password_hash is Some && bcrypt_accepts(
            password,
            users[i].password_hash->0@,
        )
}

/// The store transition of a successful local registration for `email` and
/// `password`: the registration was not complete before and is complete
/// after, and the record storing the normalized email now holds a digest
/// accepting the password; a freshly created record starts unverified with
/// role `user`. Codes and reset tokens are untouched.
pub open spec fn registered_post(
    pre: AuthStore,
    post: AuthStore,
    email: Seq<char>,
    password: Seq<char>,
) -> bool {
    let e = norm_email(email);
    &&& !email_taken(pre.users@, e)
    &&& email_taken(post.users@, e)
    &&& has_email(post.users@, e)
    &&& forall|i: int|
        0 <= i < post.users@.len() && (#[trigger] post.users@[i]).email@ == e ==> ({
            let u = post.users@[i];
            &&& u.password_hash is Some
            &&& bcrypt_accepts(password, u.password_hash->0@)
            &&& (!has_email(pre.users@, e) ==> !u.is_email_verified && u.role@ == "user"@)
        })
    &&& post.codes@ == pre.codes@
    &&& post.reset_tokens@ == pre.reset_tokens@
}

/// The store transition of a completed profile for `email`: the already
/// verified record storing the normalized email now carries the chosen
/// username and a digest accepting the password; every other record, the
/// codes and the reset tokens are untouched.
pub open spec fn profile_completed_post(
    pre: AuthStore,
    post: AuthStore,
    email: Seq<char>,
    username: Seq<char>,
    password: Seq<char>,
) -> bool {
    let e = norm_email(email);
    &&& has_email(pre.users@, e)
    &&& post.users@.len() == pre.users@.len()
    &&& forall|i: int|
        0 <= i < pre.users@.len() && (#[trigger] pre.users@[i]).email@ != e ==> post.users@[i]
            == pre.users@[i]
    &&& forall|i: int|
        0 <= i < pre.users@.len() && (#[trigger] pre.users@[i]).email@ == e ==> ({
            let u0 = pre.users@[i];
            let u1 = post.users@[i];
            &&& u0.is_email_verified
            &&& u1.id == u0.id
            &&& u1.email == u0.email
            &&& u1.role == u0.role
            &&& opt_str_view(u1.username) == Option::Some(username)
            &&& u1.password_hash is Some
            &&& bcrypt_accepts(password, u1.password_hash->0@)
            &&& u1.is_email_verified
        })
    &&& post.codes@ == pre.codes@
    &&& post.reset_tokens@ == pre.reset_tokens@
}

/// A token and response that assert exactly this user's identity.
pub open spec fn session_for(resp: AuthResponse, u: User, secret: Seq<char>) -> bool {
    &&& user_response_matches(resp.user, u)
    &&& token_claims(resp.token@, secret) is Some
    &&& token_claims(resp.token@, secret)->0.sub == u.id
    &&& token_claims(resp.token@, secret)->0.email == u.email@
    &&& token_claims(resp.token@, secret)->0.role == u.role@
}

/// Register a local account: create the user (or complete an email-only
/// placeholder that has no credential yet) with the hashed password, and
/// issue a session token. A fresh record starts unverified with role
/// `user`. The email is refused exactly when a completed account already
/// stores its normalized form.
pub fn register(store: &mut AuthStore, email: &str, password: &str, env: &Env, now: i64) -> (r:
    Result<AuthResponse, AuthError>)
    requires
        old(store).wf(),
    ensures
        final(store).wf(),
        r == Err::<AuthResponse, AuthError>(AuthError::MissingCriteria) <==> norm_email(
            email@,
        ).len() == 0,
        norm_email(email@).len() != 0 ==> (r == Err::<AuthResponse, AuthError>(
            AuthError::WeakPassword,
        ) <==> password@.len() < 6),
        norm_email(email@).len() != 0 && password@.len() >= 6 ==> ((r matches Err(e) && e
            == AuthError::EmailAlreadyExists) <==> email_taken(
            old(store).users@,
            norm_email(email@),
        )),
        r matches Err(e) ==> (e == AuthError::MissingCriteria || e == AuthError::WeakPassword || e
            == AuthError::EmailAlreadyExists || e == AuthError::Internal),
        r matches Err(e) && e != AuthError::Internal ==> *final(store) == *old(store),
        r matches Err(e) && e == AuthError::Internal ==> (*final(store) == *old(store))
            || registered_post(*old(store), *final(store), email@, password@),
        r matches Ok(resp) ==> ({
            let e = norm_email(email@);
            &&& registered_post(*old(store), *final(store), email@, password@)
            &&& forall|i: int|
                0 <= i < final(store).users@.len() && (#[trigger] final(store).users@[i]).email@
                    == e ==> session_for(resp, final(store).users@[i], env.jwt_secret@)
        }),
{
    let e = crate::text::normalize_email(email);
    if e.as_str().unicode_len() == 0 {
        return Err(AuthError::MissingCriteria);
    }
    if password.unicode_len() < 6 {
        return Err(AuthError::WeakPassword);
    }
    let idx: usize;
    match store.find_index_by_email(e.as_str()) {
        Some(i) => {
            let u0 = clone_user(&store.users[i]);
            let complete = match (&u0.password_hash, &u0.oauth_provider, &u0.oauth_id) {
                (Some(_), _, _) => true,
                (None, Some(_), Some(_)) => true,
                _ => false,
            };
            if complete {
                return Err(AuthError::EmailAlreadyExists);
            }
            let digest = match hash_password(password) {
                Ok(d) => d,
                Err(err) => {
                    return Err(err);
                },
            };
            let u1 = User {
                id: u0.id,
                email: u0.email,
                username: u0.username,
                password_hash: Some(digest),
                role: u0.role,
                oauth_provider: u0.oauth_provider,
                oauth_id: u0.oauth_id,
                profile_picture_url: u0.profile_picture_url,
                is_email_verified: u0.is_email_verified,
                created_at: u0.created_at,
                updated_at: now,
            };
            store.users.set(i, u1);
            proof {
                lemma_pair_unique_after_update(old(store).users@, store.users@, i as int);
            }
            idx = i;
        },
        None => {
            if store.next_id == i32::MAX {
                return Err(AuthError::Internal);
            }
            let digest = match hash_password(password) {
                Ok(d) => d,
                Err(err) => {
                    return Err(err);
                },
            };
            let lp = crate::text::email_local_part(e.as_str());
            let username = match store.find_index_by_username(lp.as_str()) {
                Some(_) => None,
                None => Some(lp),
            };
            let u = User {
                id: store.next_id,
                email: e,
                username,
                password_hash: Some(digest),
                role: String::from_str("user"),
                oauth_provider: None,
                oauth_id: None,
                profile_picture_url: None,
                is_email_verified: false,
                created_at: now,
                updated_at: now,
            };
            idx = store.users.len();
            proof {
                crate::text::lemma_norm_email_idempotent(email@);
            }
            store.users.push(u);
            store.next_id = store.next_id + 1;
        },
    }
    finish_session(store, idx, env)
}

/// Issue a session for the user at `idx` and package the public view.
fn finish_session(store: &AuthStore, idx: usize, env: &Env) -> (r: Result<AuthResponse, AuthError>)
    requires
        store.wf(),
        idx < store.users@.len(),
    ensures
        r matches Ok(resp) ==> session_for(resp, store.users@[idx as int], env.jwt_secret@),
        r matches Err(e) ==> e == AuthError::Internal,
{
    let u = &store.users[idx];
    let token = match sign(u.id, u.email.clone(), u.role.clone(), env) {
        Ok(t) => t,
        Err(err) => {
            return Err(err);
        },
    };
    Ok(AuthResponse { token, user: user_response_of(u) })
}

/// Log in with email and password. Fails `InvalidCredentials` exactly when
/// the email resolves to no account, the account has no password, or the
/// password does not match — one indistinguishable failure for all three.
pub fn login(store: &AuthStore, email: &str, password: &str, env: &Env) -> (r: Result<
    AuthResponse,
    AuthError,
>)
    requires
        store.wf(),
    ensures
        r matches Err(e) ==> (e == AuthError::InvalidCredentials || e == AuthError::Internal),
        (r matches Err(e) && e == AuthError::InvalidCredentials) <==> !credentials_ok(
            store.users@,
            email@,
            password@,
        ),
        r matches Ok(resp) ==> ({
            &&& credentials_ok(store.users@, email@, password@)
            &&& forall|i: int|
                0 <= i < store.users@.len() && (#[trigger] store.users@[i]).email@ == norm_email(
                    email@,
                ) ==> session_for(resp, store.users@[i], env.jwt_secret@)
        }),
{
    let e = crate::text::normalize_email(email);
    let idx = match store.find_index_by_email(e.as_str()) {
        Some(i) => i,
        None => {
            return Err(AuthError::InvalidCredentials);
        },
    };
    let ok = match &store.users[idx].password_hash {
        Some(h) => verify_password(password, h.as_str()),
        None => false,
    };
    if !ok {
        proof {
            assert forall|i: int|
                0 <= i < store.users@.len() && (#[trigger] store.users@[i]).email@ == norm_email(
                    email@,
                ) implies !(store.users@[i].password_hash is Some && bcrypt_accepts(
                password@,
                store.users@[i].password_hash->0@,
            )) by {
                if i != idx {
                    assert(store.users@[i].email@ != store.users@[idx as int].email@);
                }
            }
        }
        return Err(AuthError::InvalidCredentials);
    }
    finish_session(store, idx, env)
}

/// A local signup for this email has fully completed: the record is email
/// verified and holds a password. Only then does the multi-step path refuse
/// the email; an OAuth-only account may still add a password by verifying
/// email ownership again.
pub open spec fn local_signup_done(users: Seq<User>, email: Seq<char>) -> bool {
    exists|i: int|
        0 <= i < users.len() && (#[trigger] users[i]).email@ == email
            && users[i].is_email_verified && users[i].password_hash is Some
}

/// Begin a multi-step signup: create the email-only placeholder if the
/// email is new, then issue a six-digit verification code valid for ten
/// minutes, replacing any earlier code. The code is returned for delivery
/// to the address. Refused only when a completed local account already
/// stores the email.
pub fn start_registration(store: &mut AuthStore, email: &str, now: i64) -> (r: Result<
    (i32, String),
    AuthError,
>)
    requires
        old(store).wf(),
        now <= i64::MAX - 600,
    ensures
        final(store).wf(),
        r matches Err(e) ==> (e == AuthError::MissingCriteria || e == AuthError::EmailAlreadyExists
            || e == AuthError::Internal),
        r is Err ==> *final(store) == *old(store),
        r matches Err(e) && e == AuthError::Internal ==> old(store).next_id == i32::MAX,
        r == Err::<(i32, String), AuthError>(AuthError::MissingCriteria) <==> norm_email(
            email@,
        ).len() == 0,
        norm_email(email@).len() != 0 ==> ((r matches Err(e) && e == AuthError::EmailAlreadyExists)
            <==> local_signup_done(old(store).users@, norm_email(email@))),
        r matches Ok((uid, code)) ==> ({
            let e = norm_email(email@);
            &&& code@.len() == 6
            &&& crate::text::all_digits(code@)
            &&& 100000 <= crate::text::dec_val(code@) < 999999
            &&& has_email(final(store).users@, e)
            &&& forall|i: int|
                0 <= i < final(store).users@.len() && (#[trigger] final(store).users@[i]).email@
                    == e ==> final(store).users@[i].id == uid
            &&& (has_email(old(store).users@, e) ==> final(store).users@ == old(store).users@)
            &&& (!has_email(old(store).users@, e) ==> ({
                &&& final(store).users@.len() == old(store).users@.len() + 1
                &&& forall|j: int|
                    0 <= j < old(store).users@.len() ==> final(store).users@[j] == old(
                        store,
                    ).users@[j]
                &&& forall|i: int|
                    0 <= i < final(store).users@.len() && (#[trigger] final(store).users@[i]).email@
                        == e ==> ({
                        let u = final(store).users@[i];
                        &&& u.id == old(store).next_id
                        &&& u.password_hash is None
                        &&& u.oauth_provider is None
                        &&& !u.is_email_verified
                        &&& u.role@ == "user"@
                    })
            }))
            &&& final(store).codes@.len() >= 1
            &&& final(store).codes@.last().user_id == uid
            &&& final(store).codes@.last().code@ == code@
            &&& final(store).codes@.last().expires_at == now + 600
            &&& final(store).codes@.drop_last() == old(store).codes@.filter(
                crate::codes::not_user_code(uid),
            )
            &&& final(store).reset_tokens@ == old(store).reset_tokens@
        }),
{
    let e = crate::text::normalize_email(email);
    if e.as_str().unicode_len() == 0 {
        return Err(AuthError::MissingCriteria);
    }
    let uid: i32;
    match store.find_index_by_email(e.as_str()) {
        Some(i) => {
            let done = store.users[i].is_email_verified && (match &store.users[i].password_hash {
                Some(_) => true,
                None => false,
            });
            if done {
                return Err(AuthError::EmailAlreadyExists);
            }
            uid = store.users[i].id;
        },
        None => {
            let idx = match store.create_user_email(email, now) {
                Ok(idx) => idx,
                Err(err) => {
                    return Err(err);
                },
            };
            uid = store.users[idx].id;
        },
    }
    let code = random_code();
    store.store_verification_code_at(uid, code.as_str(), now + 600);
    proof {
        // Emails are unique, so the record carrying this email is exactly
        // the one matched or created above.
        assert forall|i: int|
            0 <= i < store.users@.len() && (#[trigger] store.users@[i]).email@ == norm_email(
                email@,
            ) implies store.users@[i].id == uid by {
            assert(forall|a: int, b: int|
                0 <= a < store.users@.len() && 0 <= b < store.users@.len() && a != b ==> (
                #[trigger] store.users@[a]).email@ != (#[trigger] store.users@[b]).email@);
        }
    }
    Ok((uid, code))
}

/// Consume a verification code presented by a public caller. A missing,
/// mismatched or expired code is one uniform failure; success marks the
/// email verified and deletes the code in the same step.
pub fn verify_code(store: &mut AuthStore, body: &VerifyCodeBody, now: i64) -> (r: Result<
    (),
    AuthError,
>)
    requires
        old(store).wf(),
    ensures
        final(store).wf(),
        r matches Err(e) ==> (e == AuthError::UserNotFound || e == AuthError::CodeInvalid)
            && *final(store) == *old(store),
        (r matches Err(e) && e == AuthError::UserNotFound) <==> !has_email(
            old(store).users@,
            norm_email(body.email@),
        ),
        r matches Err(e) && e == AuthError::CodeInvalid ==> forall|i: int|
            0 <= i < old(store).users@.len() && (#[trigger] old(store).users@[i]).email@
                == norm_email(body.email@) ==> !crate::codes::has_live_code(
                old(store).codes@,
                old(store).users@[i].id,
                body.code@,
                now as int,
            ),
        r is Ok ==> ({
            let e = norm_email(body.email@);
            &&& has_email(old(store).users@, e)
            &&& final(store).users@.len() == old(store).users@.len()
            &&& forall|i: int|
                0 <= i < old(store).users@.len() && (#[trigger] old(store).users@[i]).email@ != e
                    ==> final(store).users@[i] == old(store).users@[i]
            &&& forall|i: int|
                0 <= i < old(store).users@.len() && (#[trigger] old(store).users@[i]).email@ == e
                    ==> ({
                    let u0 = old(store).users@[i];
                    let u1 = final(store).users@[i];
                    &&& u1.id == u0.id
                    &&& u1.email == u0.email
                    &&& u1.username == u0.username
                    &&& u1.password_hash == u0.password_hash
                    &&& u1.role == u0.role
                    &&& u1.oauth_provider == u0.oauth_provider
                    &&& u1.oauth_id == u0.oauth_id
                    &&& u1.profile_picture_url == u0.profile_picture_url
                    &&& u1.is_email_verified == true
                    &&& u1.created_at == u0.created_at
                    &&& u1.updated_at == now
                    &&& crate::codes::has_live_code(
                        old(store).codes@,
                        u0.id,
                        body.code@,
                        now as int,
                    )
                    &&& final(store).codes@ == old(store).codes@.filter(
                        crate::codes::not_user_code(u0.id),
                    )
                })
            &&& final(store).reset_tokens@ == old(store).reset_tokens@
        }),
{
    match store.verify_code_at(body.email.as_str(), body.code.as_str(), now) {
        Ok((ui, true)) => {
            proof {
                assert forall|i: int|
                    0 <= i < old(store).users@.len() && (#[trigger] old(store).users@[i]).email@
                        == norm_email(body.email@) implies i == ui as int by {
                    if i != ui as int {
                        assert(old(store).users@[i].email@ != old(store).users@[ui as int].email@);
                    }
                }
            }
            Ok(())
        },
        Ok((_, false)) => Err(AuthError::CodeInvalid),
        Err(e) => Err(e),
    }
}

/// Complete a multi-step signup: set the chosen username and the hashed
/// password, then issue a session. Only an email-verified account can be
/// completed.
pub fn complete_profile(store: &mut AuthStore, body: &CompleteProfileBody, env: &Env, now: i64) -> (
    r: Result<AuthResponse, AuthError>)
    requires
        old(store).wf(),
    ensures
        final(store).wf(),
        r matches Err(e) ==> (e == AuthError::WeakPassword || e == AuthError::NotVerified || e
            == AuthError::UsernameAlreadyExists || e == AuthError::Internal),
        (r matches Err(e) && e == AuthError::WeakPassword) <==> body.password@.len() < 6,
        r matches Err(e) && e != AuthError::Internal ==> *final(store) == *old(store),
        body.password@.len() >= 6 && !(r matches Err(e) && e == AuthError::Internal) ==> ((r
            matches Err(e) && e == AuthError::NotVerified) <==> (forall|j: int|
            0 <= j < old(store).users@.len() && (#[trigger] old(store).users@[j]).email@
                == norm_email(body.email@) ==> !old(store).users@[j].is_email_verified)),
        r matches Err(e) && e == AuthError::UsernameAlreadyExists ==> exists|j: int|
            0 <= j < old(store).users@.len() && (#[trigger] old(store).users@[j]).username is Some
                && old(store).users@[j].username->0@ == body.username@ && old(store).users@[j].email@
                != norm_email(body.email@),
        r matches Err(e) && e == AuthError::Internal ==> (*final(store) == *old(store))
            || profile_completed_post(
            *old(store),
            *final(store),
            body.email@,
            body.username@,
            body.password@,
        ),
        r matches Ok(resp) ==> ({
            let e = norm_email(body.email@);
            &&& profile_completed_post(
                *old(store),
                *final(store),
                body.email@,
                body.username@,
                body.password@,
            )
            &&& forall|i: int|
                0 <= i < final(store).users@.len() && (#[trigger] final(store).users@[i]).email@
                    == e ==> session_for(resp, final(store).users@[i], env.jwt_secret@)
        }),
{
    if body.password.as_str().unicode_len() < 6 {
        return Err(AuthError::WeakPassword);
    }
    let digest = match hash_password(body.password.as_str()) {
        Ok(d) => d,
        Err(err) => {
            return Err(err);
        },
    };
    let idx = match store.complete_profile_store(
        body.email.as_str(),
        body.username.as_str(),
        digest.as_str(),
        now,
    ) {
        Ok(i) => i,
        Err(err) => {
            return Err(err);
        },
    };
    proof {
        assert forall|i: int|
            0 <= i < store.users@.len() && (#[trigger] store.users@[i]).email@ == norm_email(
                body.email@,
            ) implies i == idx as int by {
            if i != idx as int {
                assert(store.users@[i].email@ != store.users@[idx as int].email@);
            }
        }
    }
    finish_session(store, idx, env)
}

/// Sign in with a Google OAuth assertion: resolve or create the identity
/// through the store's merge rules, then issue a session for it.
pub fn google_oauth(store: &mut AuthStore, body: &GoogleOAuthBody, env: &Env, now: i64) -> (r:
    Result<AuthResponse, AuthError>)
    requires
        old(store).wf(),
    ensures
        final(store).wf(),
        r matches Err(e) ==> e == AuthError::Internal,
        r matches Err(e) && e == AuthError::Internal ==> (*final(store) == *old(store) && old(
            store,
        ).next_id == i32::MAX) || (exists|i: int|
            #[trigger] crate::store::oauth_merge_post(
                *old(store),
                *final(store),
                i,
                body.email@,
                "google"@,
                body.oauth_id@,
                opt_str_view(body.username),
                opt_str_view(body.picture_url),
                now,
            )),
        r matches Ok(resp) ==> exists|i: int|
            {
                &&& #[trigger] crate::store::oauth_merge_post(
                    *old(store),
                    *final(store),
                    i,
                    body.email@,
                    "google"@,
                    body.oauth_id@,
                    opt_str_view(body.username),
                    opt_str_view(body.picture_url),
                    now,
                )
                &&& 0 <= i < final(store).users@.len()
                &&& session_for(resp, final(store).users@[i], env.jwt_secret@)
                &&& oauth_linked(final(store).users@[i], body.oauth_id@)
            },
        r matches Ok(resp) ==> (!crate::store::has_oauth(
            old(store).users@,
            "google"@,
            body.oauth_id@,
        ) ==> forall|i: int|
            0 <= i < old(store).users@.len() && (#[trigger] old(store).users@[i]).email@
                == norm_email(body.email@) && old(store).users@[i].username is Some
                ==> opt_str_view(resp.user.username) == opt_str_view(old(store).users@[i].username)),
{
    let idx = match store.link_oauth(
        body.email.as_str(),
        "google",
        body.oauth_id.as_str(),
        &body.username,
        &body.picture_url,
        now,
    ) {
        Ok(i) => i,
        Err(err) => {
            return Err(err);
        },
    };
    let r = finish_session(store, idx, env);
    proof {
        assert(crate::store::oauth_merge_post(
            *old(store),
            *store,
            idx as int,
            body.email@,
            "google"@,
            body.oauth_id@,
            opt_str_view(body.username),
            opt_str_view(body.picture_url),
            now,
        ));
        if r is Ok {
            assert(session_for(r->Ok_0, store.users@[idx as int], env.jwt_secret@));
        }
    }
    r
}

/// The record carries this OAuth id (under some provider).
pub open spec fn oauth_linked(u: User, oauth_id: Seq<char>) -> bool {
    u.oauth_id is Some && u.oauth_id->0@ == oauth_id
}

/// Begin a password reset: if the email names an account, issue a fresh
/// 32-character token valid for thirty minutes and return it for delivery;
/// an unknown email is a deliberate no-op, so account existence does not
/// leak to the caller.
pub fn forgot_password(store: &mut AuthStore, email: &str, now: i64) -> (r: Result<
    Option<String>,
    AuthError,
>)
    requires
        old(store).wf(),
        now <= i64::MAX - 1800,
    ensures
        final(store).wf(),
        r is Err ==> false,
        r matches Ok(t) ==> (t is None ==> !has_email(old(store).users@, norm_email(email@))
            && *final(store) == *old(store)),
        r matches Ok(t) ==> (t is Some ==> ({
            &&& has_email(old(store).users@, norm_email(email@))
            &&& final(store).reset_tokens@.len() >= 1
            &&& final(store).reset_tokens@.last().token@ == t->0@
            &&& final(store).reset_tokens@.last().expires_at == now + 1800
            &&& final(store).reset_tokens@.last().is_used == false
            &&& final(store).users@ == old(store).users@
            &&& final(store).codes@ == old(store).codes@
        })),
{
    let token = random_token();
    match store.create_reset_token_at(email, token.as_str(), now + 1800) {
        Some(_) => Ok(Some(token)),
        None => Ok(None),
    }
}

/// Finish a password reset: consume the single-use token and replace the
/// owner's password with the new one, invalidating every reset token still
/// standing for that user. Unknown, used and expired tokens fail with one
/// uniform error.
pub fn reset_password(store: &mut AuthStore, body: &ResetPasswordBody, now: i64) -> (r: Result<
    (),
    AuthError,
>)
    requires
        old(store).wf(),
    ensures
        final(store).wf(),
        r matches Err(e) ==> (e == AuthError::WeakPassword || e == AuthError::ResetTokenInvalid || e
            == AuthError::UserNotFound || e == AuthError::Internal),
        (r matches Err(e) && e == AuthError::WeakPassword) <==> body.new_password@.len() < 6,
        body.new_password@.len() >= 6 && !(r matches Err(e) && e == AuthError::Internal) ==> ((r
            matches Err(e) && e == AuthError::ResetTokenInvalid) <==> !crate::codes::has_usable_token(
            old(store).reset_tokens@,
            body.token@,
            now as int,
        )),
        r matches Err(e) && e != AuthError::Internal ==> *final(store) == *old(store),
        r matches Err(e) && e == AuthError::UserNotFound ==> ({
            &&& crate::codes::has_usable_token(old(store).reset_tokens@, body.token@, now as int)
            &&& forall|k: int, j: int|
                0 <= k < old(store).reset_tokens@.len() && crate::codes::token_usable(
                    #[trigger] old(store).reset_tokens@[k],
                    body.token@,
                    now as int,
                ) && 0 <= j < old(store).users@.len() ==> (#[trigger] old(store).users@[j]).id
                    != old(store).reset_tokens@[k].user_id
        }),
        r is Ok ==> ({
            &&& !crate::codes::has_usable_token(final(store).reset_tokens@, body.token@, now as int)
            &&& exists|ti: int|
                {
                    &&& 0 <= ti < old(store).reset_tokens@.len()
                    &&& crate::codes::token_usable(
                        #[trigger] old(store).reset_tokens@[ti],
                        body.token@,
                        now as int,
                    )
                    &&& final(store).users@.len() == old(store).users@.len()
                    &&& forall|i: int|
                        0 <= i < old(store).users@.len() && (#[trigger] old(store).users@[i]).id
                            != old(store).reset_tokens@[ti].user_id ==> final(store).users@[i]
                            == old(store).users@[i]
                    &&& forall|i: int|
                        0 <= i < old(store).users@.len() && (#[trigger] old(store).users@[i]).id
                            == old(store).reset_tokens@[ti].user_id ==> ({
                            let u1 = final(store).users@[i];
                            &&& u1.id == old(store).users@[i].id
                            &&& u1.email == old(store).users@[i].email
                            &&& u1.password_hash is Some
                            &&& bcrypt_accepts(body.new_password@, u1.password_hash->0@)
                        })
                }
            &&& final(store).codes@ == old(store).codes@
        }),
{
    if body.new_password.as_str().unicode_len() < 6 {
        return Err(AuthError::WeakPassword);
    }
    let digest = match hash_password(body.new_password.as_str()) {
        Ok(d) => d,
        Err(err) => {
            return Err(err);
        },
    };
    let (ui, ti) = match store.consume_reset_token_at(body.token.as_str(), now) {
        Ok(p) => p,
        Err(err) => {
            return Err(err);
        },
    };
    let uid = store.users[ui].id;
    let ghost mid = *store;
    match store.set_password_hash(uid, digest.as_str(), now) {
        Ok(_) => {},
        Err(_) => {
            proof {
                assert(false);
            }
        },
    }
    proof {
        lemma_no_usable_after_reset(
            old(store).reset_tokens@,
            mid.reset_tokens@,
            store.reset_tokens@,
            ti as int,
            uid,
            body.token@,
            now as int,
        );
        assert forall|i: int|
            0 <= i < old(store).users@.len() && (#[trigger] old(store).users@[i]).id == uid
                implies i == ui as int by {
            if i != ui as int {
                assert(old(store).users@[i].id != old(store).users@[ui as int].id);
            }
        }
    }
    Ok(())
}

/// After a token row is consumed and the user's remaining rows are removed,
/// no row can authorize that token again.
proof fn lemma_no_usable_after_reset(
    pre: Seq<crate::store::ResetToken>,
    mid: Seq<crate::store::ResetToken>,
    post: Seq<crate::store::ResetToken>,
    ti: int,
    uid: i32,
    token: Seq<char>,
    now: int,
)
    requires
        0 <= ti < pre.len(),
        pre[ti].token@ == token,
        pre[ti].user_id == uid,
        forall|i: int, j: int| 0 <= i < j < pre.len() ==> (#[trigger] pre[i]).token@ != (#[trigger] pre[j]).token@,
        mid.len() == pre.len(),
        forall|j: int| 0 <= j < pre.len() && j != ti ==> mid[j] == pre[j],
        mid[ti].token@ == token,
        mid[ti].user_id == uid,
        mid[ti].is_used,
        post == mid.filter(crate::codes::not_user_token(uid)),
    ensures
        !crate::codes::has_usable_token(post, token, now),
{
    assert forall|k: int| 0 <= k < post.len() implies !crate::codes::token_usable(
        #[trigger] post[k],
        token,
        now,
    ) by {
        mid.lemma_filter_pred(crate::codes::not_user_token(uid), k);
        if post[k].token@ == token {
            lemma_filter_member_of(mid, crate::codes::not_user_token(uid), k);
            let w = choose|w: int| 0 <= w < mid.len() && mid[w] == post[k];
            if w == ti {
                assert(post[k].user_id == uid);
            } else {
                assert(mid[w].token@ == pre[w].token@);
                assert(pre[w].token@ != pre[ti].token@);
            }
        }
    }
}

/// Every element of a filtered sequence occurs in the original.
proof fn lemma_filter_member_of<T>(s: Seq<T>, pred: spec_fn(T) -> bool, k: int)
    requires
        0 <= k < s.filter(pred).len(),
    ensures
        exists|i: int| 0 <= i < s.len() && s[i] == s.filter(pred)[k],
    decreases s.len(),
{
    reveal(Seq::filter);
    if s.len() > 0 {
        let f = s.filter(pred);
        let fd = s.drop_last().filter(pred);
        if pred(s.last()) && k == f.len() - 1 {
            assert(s[s.len() - 1] == f[k]);
        } else {
            assert(f[k] == fd[k]);
            lemma_filter_member_of(s.drop_last(), pred, k);
            let i = choose|i: int| 0 <= i < s.drop_last().len() && s.drop_last()[i] == fd[k];
            assert(s[i] == f[k]);
        }
    }
}

/// The public view of the account with this id.
pub fn get_me(store: &AuthStore, user_id: i32) -> (r: Result<UserResponse, AuthError>)
    requires
        store.wf(),
    ensures
        match r {
            Ok(resp) => exists|i: int|
                0 <= i < store.users@.len() && (#[trigger] store.users@[i]).id == user_id
                    && user_response_matches(resp, store.users@[i]),
            Err(e) => e == AuthError::UserNotFound && forall|i: int|
                0 <= i < store.users@.len() ==> (#[trigger] store.users@[i]).id != user_id,
        },
{
    match store.find_index_by_id(user_id) {
        Some(i) => Ok(user_response_of(&store.users[i])),
        None => Err(AuthError::UserNotFound),
    }
}

} // verus!
