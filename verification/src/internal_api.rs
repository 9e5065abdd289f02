//! The service-to-service surface: the operations a companion application
//! sharing the user table calls directly, keyed by API client rather than
//! by session. Bodies carry plain values; timestamps arrive as RFC 3339
//! strings and are converted at this boundary.

use vstd::prelude::*;
use crate::codes::{has_live_code, has_usable_token, not_user_code, token_usable};
use crate::dates::{parse_rfc3339, rfc3339_epoch};
use crate::errors::AuthError;
use crate::password::{bcrypt_accepts, hash_password};
use crate::store::{
    AuthStore, User, has_email, has_oauth, has_username, oauth_matches, oauth_merge_post,
};
use crate::text::local_part;
use crate::text::{norm_email, opt_str_view};
use vstd::string::StringExecFns;

verus! {

pub struct FindUserBody {
    pub email: Option<String>,
    pub id: Option<i32>,
    pub provider: Option<String>,
    pub oauth_id: Option<String>,
}

/// The internal view of a user record. Unlike the public view it carries
/// the password digest and OAuth provider, for the trusted companion
/// application only.
#[derive(Debug)]
pub struct UserLite {
    pub id: i32,
    pub email: String,
    pub username: Option<String>,
    pub role: String,
    pub password_hash: Option<String>,
    pub is_email_verified: bool,
    pub oauth_provider: Option<String>,
    pub profile_picture_url: Option<String>,
}

pub struct CreateUserEmailBody {
    pub email: String,
}

pub struct SetOAuthUserBody {
    pub email: String,
    pub provider: String,
    pub oauth_id: String,
    pub picture_url: Option<String>,
    pub name: Option<String>,
}

pub struct SetUsernamePasswordBody {
    pub email: String,
    pub username: String,
    pub password: String,
}

pub struct UpdateUserBody {
    pub id: i32,
    pub username: Option<String>,
    pub profile_picture_url: Option<String>,
}

pub struct DeleteUserBody {
    pub id: i32,
}

pub struct StoreVerificationCodeBody {
    pub user_id: i32,
    pub code: String,
    pub expires_at: String,
}

pub struct VerifyCodeBody {
    pub email: String,
    pub code: String,
}

#[derive(Debug)]
pub struct VerifyCodeResponse {
    pub ok: bool,
    pub user_id: i32,
    pub reason: Option<String>,
}

pub struct CreateResetTokenBody {
    pub email: String,
    pub token: String,
    pub expires_at: String,
}

pub struct ConsumeResetTokenBody {
    pub token: String,
}

pub struct SetPasswordBody {
    pub user_id: i32,
    pub new_password: String,
}

pub struct HomepageContentRow {
    pub section_name: String,
    pub content: String,
}

pub struct HomepageUpdateBody {
    pub section_name: String,
    pub content: String,
}

/// Whether an internal view reflects this record.
pub open spec fn user_lite_matches(r: UserLite, u: User) -> bool {
    &&& r.id == u.id
    &&& r.email@ == u.email@
    &&& opt_str_view(r.username) == opt_str_view(u.username)
    &&& r.role@ == u.role@
    &&& opt_str_view(r.password_hash) == opt_str_view(u.password_hash)
    &&& r.is_email_verified == u.is_email_verified
    &&& opt_str_view(r.oauth_provider) == opt_str_view(u.oauth_provider)
    &&& opt_str_view(r.profile_picture_url) == opt_str_view(u.profile_picture_url)
}

/// The internal view of a user record.
pub fn user_lite_of(u: &User) -> (r: UserLite)
    ensures
        user_lite_matches(r, *u),
{
    UserLite {
        id: u.id,
        email: u.email.clone(),
        username: u.username.clone(),
        role: u.role.clone(),
        password_hash: u.password_hash.clone(),
        is_email_verified: u.is_email_verified,
        oauth_provider: u.oauth_provider.clone(),
        profile_picture_url: u.profile_picture_url.clone(),
    }
}

/// Look a user up by the first key the body supplies, in the fixed order
/// email, id, OAuth pair; a body naming none of them is refused.
pub fn find_user(store: &AuthStore, body: &FindUserBody) -> (r: Result<UserLite, AuthError>)
    requires
        store.wf(),
    ensures
        match r {
            Ok(u) => exists|i: int|
                0 <= i < store.users@.len() && #[trigger] user_lite_matches(u, store.users@[i])
                    && (match body.email {
                    Option::Some(e) => store.users@[i].email@ == norm_email(e@),
                    Option::None => match body.id {
                        Option::Some(id) => store.users@[i].id == id,
                        Option::None => body.provider is Some && body.oauth_id is Some
                            && oauth_matches(
                            store.users@[i],
                            body.provider->0@,
                            body.oauth_id->0@,
                        ),
                    },
                }),
            Err(e) => e == AuthError::UserNotFound || e == AuthError::MissingCriteria,
        },
        r matches Err(e) && e == AuthError::MissingCriteria ==> body.email is None && body.id
            is None && !(body.provider is Some && body.oauth_id is Some),
        r matches Err(e) && e == AuthError::UserNotFound ==> (match body.email {
            Option::Some(e) => !has_email(store.users@, norm_email(e@)),
            Option::None => match body.id {
                Option::Some(id) => forall|j: int|
                    0 <= j < store.users@.len() ==> (#[trigger] store.users@[j]).id != id,
                Option::None => body.provider is Some && body.oauth_id is Some && !has_oauth(
                    store.users@,
                    body.provider->0@,
                    body.oauth_id->0@,
                ),
            },
        }),
{
    match &body.email {
        Some(e) => {
            let ne = crate::text::normalize_email(e.as_str());
            match store.find_index_by_email(ne.as_str()) {
                Some(i) => Ok(user_lite_of(&store.users[i])),
                None => Err(AuthError::UserNotFound),
            }
        },
        None => match body.id {
            Some(id) => match store.find_index_by_id(id) {
                Some(i) => Ok(user_lite_of(&store.users[i])),
                None => Err(AuthError::UserNotFound),
            },
            None => match (&body.provider, &body.oauth_id) {
                (Some(p), Some(oid)) => {
                    match store.find_index_by_oauth(p.as_str(), oid.as_str()) {
                        Some(i) => Ok(user_lite_of(&store.users[i])),
                        None => Err(AuthError::UserNotFound),
                    }
                },
                _ => Err(AuthError::MissingCriteria),
            },
        },
    }
}

/// Create the minimal email-only placeholder record.
pub fn create_user_email(store: &mut AuthStore, body: &CreateUserEmailBody, now: i64) -> (r: Result<
    UserLite,
    AuthError,
>)
    requires
        old(store).wf(),
    ensures
        final(store).wf(),
        r matches Ok(u) ==> ({
            let e = norm_email(body.email@);
            let lp = local_part(e);
            &&& !has_email(old(store).users@, e)
            &&& has_email(final(store).users@, e)
            &&& final(store).users@.len() == old(store).users@.len() + 1
            &&& forall|j: int|
                0 <= j < old(store).users@.len() ==> final(store).users@[j] == old(store).users@[j]
            &&& user_lite_matches(u, final(store).users@.last())
            &&& u.id == old(store).next_id
            &&& u.email@ == e
            &&& opt_str_view(u.username) == (if has_username(old(store).users@, lp) {
                Option::<Seq<char>>::None
            } else {
                Option::Some(lp)
            })
            &&& u.password_hash is None
            &&& u.oauth_provider is None
            &&& !u.is_email_verified
            &&& u.role@ == "user"@
            &&& final(store).codes@ == old(store).codes@
            &&& final(store).reset_tokens@ == old(store).reset_tokens@
        }),
        (r matches Err(e) && e == AuthError::EmailAlreadyExists) <==> has_email(
            old(store).users@,
            norm_email(body.email@),
        ),
        r matches Err(e) ==> (e == AuthError::EmailAlreadyExists || (e == AuthError::Internal
            && old(store).next_id == i32::MAX)),
        r is Err ==> *final(store) == *old(store),
{
    let idx = match store.create_user_email(body.email.as_str(), now) {
        Ok(i) => i,
        Err(err) => {
            return Err(err);
        },
    };
    Ok(user_lite_of(&store.users[idx]))
}

/// Resolve an OAuth assertion and return the merged record.
pub fn set_oauth_user(store: &mut AuthStore, body: &SetOAuthUserBody, now: i64) -> (r: Result<
    UserLite,
    AuthError,
>)
    requires
        old(store).wf(),
    ensures
        final(store).wf(),
        r matches Err(e) ==> (e == AuthError::Internal && !has_oauth(
            old(store).users@,
            body.provider@,
            body.oauth_id@,
        ) && !has_email(old(store).users@, norm_email(body.email@)) && old(store).next_id
            == i32::MAX && *final(store) == *old(store)),
        r matches Ok(u) ==> exists|i: int|
            {
                &&& #[trigger] oauth_merge_post(
                    *old(store),
                    *final(store),
                    i,
                    body.email@,
                    body.provider@,
                    body.oauth_id@,
                    opt_str_view(body.name),
                    opt_str_view(body.picture_url),
                    now,
                )
                &&& 0 <= i < final(store).users@.len()
                &&& user_lite_matches(u, final(store).users@[i])
                &&& oauth_matches(final(store).users@[i], body.provider@, body.oauth_id@)
            },
{
    let idx = match store.link_oauth(
        body.email.as_str(),
        body.provider.as_str(),
        body.oauth_id.as_str(),
        &body.name,
        &body.picture_url,
        now,
    ) {
        Ok(i) => i,
        Err(err) => {
            return Err(err);
        },
    };
    Ok(user_lite_of(&store.users[idx]))
}

/// Set username and hashed password for a verified account.
pub fn set_username_password(store: &mut AuthStore, body: &SetUsernamePasswordBody, now: i64) -> (r:
    Result<UserLite, AuthError>)
    requires
        old(store).wf(),
    ensures
        final(store).wf(),
        r matches Err(e) ==> (e == AuthError::NotVerified || e == AuthError::UsernameAlreadyExists
            || e == AuthError::Internal),
        r is Err ==> *final(store) == *old(store),
        !(r matches Err(e) && e == AuthError::Internal) ==> ((r matches Err(e) && e
            == AuthError::NotVerified) <==> (forall|j: int|
            0 <= j < old(store).users@.len() && (#[trigger] old(store).users@[j]).email@
                == norm_email(body.email@) ==> !old(store).users@[j].is_email_verified)),
        r matches Err(e) && e == AuthError::UsernameAlreadyExists ==> exists|j: int|
            0 <= j < old(store).users@.len() && (#[trigger] old(store).users@[j]).username is Some
                && old(store).users@[j].username->0@ == body.username@ && old(store).users@[j].email@
                != norm_email(body.email@),
        r matches Ok(u) ==> ({
            let e = norm_email(body.email@);
            &&& final(store).users@.len() == old(store).users@.len()
            &&& forall|i: int|
                0 <= i < old(store).users@.len() && (#[trigger] old(store).users@[i]).email@ != e
                    ==> final(store).users@[i] == old(store).users@[i]
            &&& forall|i: int|
                0 <= i < old(store).users@.len() && (#[trigger] old(store).users@[i]).email@ == e
                    ==> (old(store).users@[i].is_email_verified && user_lite_matches(
                    u,
                    final(store).users@[i],
                ) && final(store).users@[i].id == old(store).users@[i].id
                    && final(store).users@[i].role == old(store).users@[i].role)
            &&& u.email@ == e
            &&& opt_str_view(u.username) == Option::Some(body.username@)
            &&& u.password_hash is Some
            &&& bcrypt_accepts(body.password@, u.password_hash->0@)
            &&& u.is_email_verified
            &&& final(store).codes@ == old(store).codes@
            &&& final(store).reset_tokens@ == old(store).reset_tokens@
        }),
{
    let digest = match hash_password(body.password.as_str()) {
        Ok(d) => d,
        Err(err) => {
            return Err(err);
        },
    };
    let idx = match store.complete_profile_store(
        body.email.as_str(),
        body.username.as_str(),
        digest.as_str(),
        now,
    ) {
        Ok(i) => i,
        Err(err) => {
            return Err(err);
        },
    };
    proof {
        assert forall|i: int|
            0 <= i < old(store).users@.len() && (#[trigger] old(store).users@[i]).email@
                == norm_email(body.email@) implies i == idx as int by {
            if i != idx as int {
                assert(old(store).users@[i].email@ != old(store).users@[idx as int].email@);
            }
        }
    }
    Ok(user_lite_of(&store.users[idx]))
}

/// Partial profile update by id.
pub fn update_user(store: &mut AuthStore, body: &UpdateUserBody, now: i64) -> (r: Result<
    UserLite,
    AuthError,
>)
    requires
        old(store).wf(),
    ensures
        final(store).wf(),
        r matches Err(e) ==> (e == AuthError::UserNotFound || e == AuthError::UsernameAlreadyExists)
            && *final(store) == *old(store),
        (r matches Err(e) && e == AuthError::UserNotFound) <==> (forall|j: int|
            0 <= j < old(store).users@.len() ==> (#[trigger] old(store).users@[j]).id != body.id),
        r matches Err(e) && e == AuthError::UsernameAlreadyExists ==> body.username is Some
            && exists|j: int|
            0 <= j < old(store).users@.len() && (#[trigger] old(store).users@[j]).username is Some
                && old(store).users@[j].username->0@ == body.username->0@ && old(
                store,
            ).users@[j].id != body.id,
        r matches Ok(u) ==> ({
            &&& u.id == body.id
            &&& final(store).users@.len() == old(store).users@.len()
            &&& forall|i: int|
                0 <= i < old(store).users@.len() && (#[trigger] old(store).users@[i]).id != body.id
                    ==> final(store).users@[i] == old(store).users@[i]
            &&& forall|i: int|
                0 <= i < old(store).users@.len() && (#[trigger] old(store).users@[i]).id == body.id
                    ==> ({
                    let u0 = old(store).users@[i];
                    let u1 = final(store).users@[i];
                    &&& user_lite_matches(u, u1)
                    &&& opt_str_view(u1.username) == (match opt_str_view(body.username) {
                        Option::Some(un) => Option::Some(un),
                        Option::None => opt_str_view(u0.username),
                    })
                    &&& opt_str_view(u1.profile_picture_url) == (match opt_str_view(
                        body.profile_picture_url,
                    ) {
                        Option::Some(p) => Option::Some(p),
                        Option::None => opt_str_view(u0.profile_picture_url),
                    })
                    &&& u1.email == u0.email
                    &&& u1.role == u0.role
                    &&& u1.password_hash == u0.password_hash
                    &&& u1.oauth_provider == u0.oauth_provider
                    &&& u1.oauth_id == u0.oauth_id
                    &&& u1.is_email_verified == u0.is_email_verified
                    &&& u1.created_at == u0.created_at
                    &&& u1.updated_at == now
                })
            &&& final(store).codes@ == old(store).codes@
            &&& final(store).reset_tokens@ == old(store).reset_tokens@
        }),
{
    let idx = match store.update_profile(body.id, &body.username, &body.profile_picture_url, now) {
        Ok(i) => i,
        Err(err) => {
            return Err(err);
        },
    };
    proof {
        assert forall|i: int|
            0 <= i < old(store).users@.len() && (#[trigger] old(store).users@[i]).id == body.id
                implies i == idx as int by {
            if i != idx as int {
                assert(old(store).users@[i].id != old(store).users@[idx as int].id);
            }
        }
    }
    Ok(user_lite_of(&store.users[idx]))
}

/// Issue a verification code; the expiry arrives as an RFC 3339 string.
pub fn store_verification_code(store: &mut AuthStore, body: &StoreVerificationCodeBody) -> (r:
    Result<(), AuthError>)
    requires
        old(store).wf(),
    ensures
        final(store).wf(),
        r matches Err(e) ==> e == AuthError::InvalidDate && rfc3339_epoch(body.expires_at@) is None
            && *final(store) == *old(store),
        r is Ok ==> ({
            &&& rfc3339_epoch(body.expires_at@) is Some
            &&& final(store).codes@.drop_last() == old(store).codes@.filter(
                not_user_code(body.user_id),
            )
            &&& final(store).codes@.len() == old(store).codes@.filter(
                not_user_code(body.user_id),
            ).len() + 1
            &&& final(store).codes@.last().user_id == body.user_id
            &&& final(store).codes@.last().code@ == body.code@
            &&& Some(final(store).codes@.last().expires_at as int) == rfc3339_epoch(
                body.expires_at@,
            )
            &&& final(store).users@ == old(store).users@
            &&& final(store).reset_tokens@ == old(store).reset_tokens@
        }),
{
    let expires_at = match parse_rfc3339(body.expires_at.as_str()) {
        Some(t) => t,
        None => {
            return Err(AuthError::InvalidDate);
        },
    };
    store.store_verification_code_at(body.user_id, body.code.as_str(), expires_at);
    Ok(())
}

/// Consume a verification code on behalf of the companion application. A
/// negative outcome is data, not an error, so guessing is observable to the
/// caller only as `ok: false`.
pub fn verify_code(store: &mut AuthStore, body: &VerifyCodeBody, now: i64) -> (r: Result<
    VerifyCodeResponse,
    AuthError,
>)
    requires
        old(store).wf(),
    ensures
        final(store).wf(),
        r matches Err(e) ==> e == AuthError::UserNotFound,
        (r matches Err(e) && e == AuthError::UserNotFound) <==> !has_email(
            old(store).users@,
            norm_email(body.email@),
        ),
        r is Err ==> *final(store) == *old(store),
        r matches Ok(resp) ==> (!resp.ok ==> *final(store) == *old(store) && resp.user_id == 0
            && resp.reason is Some && forall|i: int|
                0 <= i < old(store).users@.len() && (#[trigger] old(store).users@[i]).email@
                    == norm_email(body.email@) ==> !has_live_code(
                    old(store).codes@,
                    old(store).users@[i].id,
                    body.code@,
                    now as int,
                )),
        r matches Ok(resp) ==> (resp.ok ==> ({
            let e = norm_email(body.email@);
            &&& resp.reason is None
            &&& final(store).users@.len() == old(store).users@.len()
            &&& forall|i: int|
                0 <= i < old(store).users@.len() && (#[trigger] old(store).users@[i]).email@ != e
                    ==> final(store).users@[i] == old(store).users@[i]
            &&& forall|i: int|
                0 <= i < old(store).users@.len() && (#[trigger] old(store).users@[i]).email@ == e
                    ==> ({
                    let u0 = old(store).users@[i];
                    let u1 = final(store).users@[i];
                    &&& u0.id == resp.user_id
                    &&& u1.id == u0.id
                    &&& u1.email == u0.email
                    &&& u1.username == u0.username
                    &&& u1.password_hash == u0.password_hash
                    &&& u1.role == u0.role
                    &&& u1.oauth_provider == u0.oauth_provider
                    &&& u1.oauth_id == u0.oauth_id
                    &&& u1.profile_picture_url == u0.profile_picture_url
                    &&& u1.is_email_verified == true
                    &&& u1.created_at == u0.created_at
                    &&& u1.updated_at == now
                })
            &&& has_live_code(old(store).codes@, resp.user_id, body.code@, now as int)
            &&& final(store).codes@ == old(store).codes@.filter(not_user_code(resp.user_id))
            &&& final(store).reset_tokens@ == old(store).reset_tokens@
        })),
{
    match store.verify_code_at(body.email.as_str(), body.code.as_str(), now) {
        Ok((ui, true)) => {
            proof {
                assert forall|i: int|
                    0 <= i < old(store).users@.len() && (#[trigger] old(store).users@[i]).email@
                        == norm_email(body.email@) implies i == ui as int by {
                    if i != ui as int {
                        assert(old(store).users@[i].email@ != old(store).users@[ui as int].email@);
                    }
                }
            }
            let uid = store.users[ui].id;
            Ok(VerifyCodeResponse { ok: true, user_id: uid, reason: None })
        },
        Ok((_, false)) => Ok(
            VerifyCodeResponse {
                ok: false,
                user_id: 0,
                reason: Some(String::from_str("Invalid or expired code")),
            },
        ),
        Err(e) => Err(e),
    }
}

/// Issue a reset token; an unknown email is a deliberate no-op.
pub fn create_reset_token(store: &mut AuthStore, body: &CreateResetTokenBody) -> (r: Result<
    (),
    AuthError,
>)
    requires
        old(store).wf(),
    ensures
        final(store).wf(),
        r matches Err(e) ==> e == AuthError::InvalidDate && rfc3339_epoch(body.expires_at@) is None
            && *final(store) == *old(store),
        r is Ok ==> (!has_email(old(store).users@, norm_email(body.email@)) ==> *final(store)
            == *old(store)),
        r is Ok ==> (has_email(old(store).users@, norm_email(body.email@)) ==> ({
            let e = norm_email(body.email@);
            &&& final(store).reset_tokens@.len() >= 1
            &&& final(store).reset_tokens@.last().token@ == body.token@
            &&& Some(final(store).reset_tokens@.last().expires_at as int) == rfc3339_epoch(
                body.expires_at@,
            )
            &&& final(store).reset_tokens@.last().is_used == false
            &&& forall|i: int|
                0 <= i < old(store).users@.len() && (#[trigger] old(store).users@[i]).email@ == e
                    ==> ({
                    let uid = old(store).users@[i].id;
                    &&& final(store).reset_tokens@.last().user_id == uid
                    &&& final(store).reset_tokens@.drop_last() == old(store).reset_tokens@.filter(
                        crate::codes::other_token(uid, body.token@),
                    )
                })
            &&& final(store).users@ == old(store).users@
            &&& final(store).codes@ == old(store).codes@
        })),
{
    let expires_at = match parse_rfc3339(body.expires_at.as_str()) {
        Some(t) => t,
        None => {
            return Err(AuthError::InvalidDate);
        },
    };
    let hit = store.create_reset_token_at(body.email.as_str(), body.token.as_str(), expires_at);
    proof {
        if hit is Some {
            let ui = hit->0 as int;
            assert forall|i: int|
                0 <= i < old(store).users@.len() && (#[trigger] old(store).users@[i]).email@
                    == norm_email(body.email@) implies i == ui by {
                if i != ui {
                    assert(old(store).users@[i].email@ != old(store).users@[ui].email@);
                }
            }
        }
    }
    Ok(())
}

/// Consume a reset token and hand back its owner.
pub fn consume_reset_token(store: &mut AuthStore, body: &ConsumeResetTokenBody, now: i64) -> (r:
    Result<UserLite, AuthError>)
    requires
        old(store).wf(),
    ensures
        final(store).wf(),
        r matches Err(e) ==> (e == AuthError::ResetTokenInvalid || e == AuthError::UserNotFound)
            && *final(store) == *old(store),
        (r matches Err(e) && e == AuthError::ResetTokenInvalid) <==> !has_usable_token(
            old(store).reset_tokens@,
            body.token@,
            now as int,
        ),
        r matches Err(e) && e == AuthError::UserNotFound ==> forall|k: int, j: int|
            0 <= k < old(store).reset_tokens@.len() && token_usable(
                #[trigger] old(store).reset_tokens@[k],
                body.token@,
                now as int,
            ) && 0 <= j < old(store).users@.len() ==> (#[trigger] old(store).users@[j]).id != old(
                store,
            ).reset_tokens@[k].user_id,
        r matches Ok(u) ==> exists|ti: int|
            {
                &&& 0 <= ti < old(store).reset_tokens@.len()
                &&& token_usable(#[trigger] old(store).reset_tokens@[ti], body.token@, now as int)
                &&& u.id == old(store).reset_tokens@[ti].user_id
                &&& final(store).reset_tokens@.len() == old(store).reset_tokens@.len()
                &&& forall|j: int|
                    0 <= j < old(store).reset_tokens@.len() && j != ti
                        ==> final(store).reset_tokens@[j] == old(store).reset_tokens@[j]
                &&& final(store).reset_tokens@[ti].is_used == true
                &&& final(store).reset_tokens@[ti].token == old(store).reset_tokens@[ti].token
                &&& final(store).reset_tokens@[ti].user_id == old(store).reset_tokens@[ti].user_id
                &&& !has_usable_token(final(store).reset_tokens@, body.token@, now as int)
                &&& exists|i: int|
                    0 <= i < final(store).users@.len() && (#[trigger] final(store).users@[i]).id
                        == u.id && user_lite_matches(u, final(store).users@[i])
                &&& final(store).users@ == old(store).users@
                &&& final(store).codes@ == old(store).codes@
            },
{
    let (ui, ti) = match store.consume_reset_token_at(body.token.as_str(), now) {
        Ok(p) => p,
        Err(err) => {
            return Err(err);
        },
    };
    proof {
        lemma_consumed_token_unusable(
            old(store).reset_tokens@,
            store.reset_tokens@,
            ti as int,
            body.token@,
            now as int,
        );
    }
    Ok(user_lite_of(&store.users[ui]))
}

/// Marking the one row carrying a token as used leaves no usable row with
/// that token.
proof fn lemma_consumed_token_unusable(
    pre: Seq<crate::store::ResetToken>,
    post: Seq<crate::store::ResetToken>,
    ti: int,
    token: Seq<char>,
    now: int,
)
    requires
        0 <= ti < pre.len(),
        pre[ti].token@ == token,
        forall|i: int, j: int|
            0 <= i < j < pre.len() ==> (#[trigger] pre[i]).token@ != (#[trigger] pre[j]).token@,
        post.len() == pre.len(),
        forall|j: int| 0 <= j < pre.len() && j != ti ==> post[j] == pre[j],
        post[ti].is_used,
    ensures
        !has_usable_token(post, token, now),
{
    assert forall|k: int| 0 <= k < post.len() implies !token_usable(
        #[trigger] post[k],
        token,
        now,
    ) by {
        if k != ti {
            assert(post[k].token@ == pre[k].token@);
            assert(pre[k].token@ != pre[ti].token@);
        }
    }
}

/// Replace a user's password with the given one, hashed, and invalidate
/// the user's remaining reset tokens.
pub fn set_password(store: &mut AuthStore, body: &SetPasswordBody, now: i64) -> (r: Result<
    (),
    AuthError,
>)
    requires
        old(store).wf(),
    ensures
        final(store).wf(),
        r matches Err(e) ==> (e == AuthError::UserNotFound || e == AuthError::Internal)
            && *final(store) == *old(store),
        r matches Err(e) && e == AuthError::UserNotFound ==> forall|j: int|
            0 <= j < old(store).users@.len() ==> (#[trigger] old(store).users@[j]).id
                != body.user_id,
        r is Ok ==> ({
            &&& exists|i: int|
                0 <= i < final(store).users@.len() && (#[trigger] final(store).users@[i]).id
                    == body.user_id && final(store).users@[i].password_hash is Some
                    && bcrypt_accepts(
                    body.new_password@,
                    final(store).users@[i].password_hash->0@,
                )
            &&& final(store).reset_tokens@ == old(store).reset_tokens@.filter(
                crate::codes::not_user_token(body.user_id),
            )
        }),
{
    let digest = match hash_password(body.new_password.as_str()) {
        Ok(d) => d,
        Err(err) => {
            return Err(err);
        },
    };
    match store.set_password_hash(body.user_id, digest.as_str(), now) {
        Ok(_) => Ok(()),
        Err(err) => Err(err),
    }
}

/// Every user, newest id first.
pub fn list_users(store: &AuthStore) -> (r: Vec<UserLite>)
    requires
        store.wf(),
    ensures
        r@.len() == store.users@.len(),
        forall|i: int|
            0 <= i < r@.len() ==> user_lite_matches(
                #[trigger] r@[i],
                store.users@[store.users@.len() - 1 - i],
            ),
{
    let n = store.users.len();
    let mut out: Vec<UserLite> = Vec::new();
    let mut i: usize = 0;
    while i < n
        invariant
            0 <= i <= n,
            n == store.users@.len(),
            out@.len() == i,
            forall|j: int|
                0 <= j < i ==> user_lite_matches(#[trigger] out@[j], store.users@[n - 1 - j]),
        decreases n - i,
    {
        out.push(user_lite_of(&store.users[n - 1 - i]));
        i = i + 1;
    }
    out
}

} // verus!
