//! The user-facing account views: listing for administrators, role
//! changes, and self-service profile reads and updates.

use vstd::prelude::*;
use crate::errors::AuthError;
use crate::store::{AuthStore, User, is_role};
use crate::text::opt_str_view;

verus! {

/// The administrative listing row.
#[derive(Debug)]
pub struct UserRow {
    pub id: i32,
    pub email: String,
    pub username: Option<String>,
    pub role: String,
    pub provider: Option<String>,
    pub is_verified: bool,
}

/// The self-service profile row.
#[derive(Debug)]
pub struct UserMeRow {
    pub id: i32,
    pub username: Option<String>,
    pub email: String,
    pub role: String,
    pub profile_picture_url: Option<String>,
    pub is_email_verified: bool,
}

pub struct UpdateMeBody {
    pub username: Option<String>,
    pub profile_picture_url: Option<String>,
}

pub struct UpdateRoleBody {
    pub role: String,
}

/// Whether a listing row reflects this record.
pub open spec fn user_row_matches(r: UserRow, u: User) -> bool {
    &&& r.id == u.id
    &&& r.email@ == u.email@
    &&& opt_str_view(r.username) == opt_str_view(u.username)
    &&& r.role@ == u.role@
    &&& opt_str_view(r.provider) == opt_str_view(u.oauth_provider)
    &&& r.is_verified == u.is_email_verified
}

/// Whether a profile row reflects this record.
pub open spec fn user_me_row_matches(r: UserMeRow, u: User) -> bool {
    &&& r.id == u.id
    &&& opt_str_view(r.username) == opt_str_view(u.username)
    &&& r.email@ == u.email@
    &&& r.role@ == u.role@
    &&& opt_str_view(r.profile_picture_url) == opt_str_view(u.profile_picture_url)
    &&& r.is_email_verified == u.is_email_verified
}

fn user_row_of(u: &User) -> (r: UserRow)
    ensures
        user_row_matches(r, *u),
{
    UserRow {
        id: u.id,
        email: u.email.clone(),
        username: u.username.clone(),
        role: u.role.clone(),
        provider: u.oauth_provider.clone(),
        is_verified: u.is_email_verified,
    }
}

fn user_me_row_of(u: &User) -> (r: UserMeRow)
    ensures
        user_me_row_matches(r, *u),
{
    UserMeRow {
        id: u.id,
        username: u.username.clone(),
        email: u.email.clone(),
        role: u.role.clone(),
        profile_picture_url: u.profile_picture_url.clone(),
        is_email_verified: u.is_email_verified,
    }
}

/// Every user, newest id first.
pub fn list_users(store: &AuthStore) -> (r: Vec<UserRow>)
    requires
        store.wf(),
    ensures
        r@.len() == store.users@.len(),
        forall|i: int|
            0 <= i < r@.len() ==> user_row_matches(
                #[trigger] r@[i],
                store.users@[store.users@.len() - 1 - i],
            ),
{
    let n = store.users.len();
    let mut out: Vec<UserRow> = Vec::new();
    let mut i: usize = 0;
    while i < n
        invariant
            0 <= i <= n,
            n == store.users@.len(),
            out@.len() == i,
            forall|j: int|
                0 <= j < i ==> user_row_matches(#[trigger] out@[j], store.users@[n - 1 - j]),
        decreases n - i,
    {
        out.push(user_row_of(&store.users[n - 1 - i]));
        i = i + 1;
    }
    out
}

/// Change a user's role; only the two known roles are accepted.
pub fn update_role(store: &mut AuthStore, id: i32, role: String, now: i64) -> (r: Result<
    UserRow,
    AuthError,
>)
    requires
        old(store).wf(),
    ensures
        final(store).wf(),
        r matches Err(e) ==> (e == AuthError::InvalidRole || e == AuthError::UserNotFound)
            && *final(store) == *old(store),
        (r matches Err(e) && e == AuthError::InvalidRole) <==> !is_role(role@),
        (r matches Err(e) && e == AuthError::UserNotFound) <==> (is_role(role@) && forall|j: int|
            0 <= j < old(store).users@.len() ==> (#[trigger] old(store).users@[j]).id != id),
        r matches Ok(row) ==> ({
            &&& row.id == id
            &&& row.role@ == role@
            &&& final(store).users@.len() == old(store).users@.len()
            &&& forall|i: int|
                0 <= i < old(store).users@.len() && (#[trigger] old(store).users@[i]).id != id
                    ==> final(store).users@[i] == old(store).users@[i]
            &&& forall|i: int|
                0 <= i < old(store).users@.len() && (#[trigger] old(store).users@[i]).id == id
                    ==> ({
                    let u0 = old(store).users@[i];
                    let u1 = final(store).users@[i];
                    &&& user_row_matches(row, u1)
                    &&& u1.role@ == role@
                    &&& u1.id == u0.id
                    &&& u1.email == u0.email
                    &&& u1.username == u0.username
                    &&& u1.password_hash == u0.password_hash
                    &&& u1.oauth_provider == u0.oauth_provider
                    &&& u1.oauth_id == u0.oauth_id
                    &&& u1.profile_picture_url == u0.profile_picture_url
                    &&& u1.is_email_verified == u0.is_email_verified
                    &&& u1.created_at == u0.created_at
                    &&& u1.updated_at == now
                })
            &&& final(store).codes@ == old(store).codes@
            &&& final(store).reset_tokens@ == old(store).reset_tokens@
        }),
{
    let idx = match store.set_role(id, role.as_str(), now) {
        Ok(i) => i,
        Err(err) => {
            return Err(err);
        },
    };
    proof {
        assert forall|i: int|
            0 <= i < old(store).users@.len() && (#[trigger] old(store).users@[i]).id == id
                implies i == idx as int by {
            if i != idx as int {
                assert(old(store).users@[i].id != old(store).users@[idx as int].id);
            }
        }
    }
    Ok(user_row_of(&store.users[idx]))
}

/// The profile of the account with this id.
pub fn get_by_id(store: &AuthStore, id: i32) -> (r: Result<UserMeRow, AuthError>)
    requires
        store.wf(),
    ensures
        match r {
            Ok(row) => exists|i: int|
                0 <= i < store.users@.len() && (#[trigger] store.users@[i]).id == id
                    && user_me_row_matches(row, store.users@[i]),
            Err(e) => e == AuthError::UserNotFound && forall|i: int|
                0 <= i < store.users@.len() ==> (#[trigger] store.users@[i]).id != id,
        },
{
    match store.find_index_by_id(id) {
        Some(i) => Ok(user_me_row_of(&store.users[i])),
        None => Err(AuthError::UserNotFound),
    }
}

/// Self-service partial profile update: supplied fields replace stored
/// values, omitted ones stay.
pub fn update_me(store: &mut AuthStore, id: i32, body: &UpdateMeBody, now: i64) -> (r: Result<
    UserMeRow,
    AuthError,
>)
    requires
        old(store).wf(),
    ensures
        final(store).wf(),
        r matches Err(e) ==> (e == AuthError::UserNotFound || e == AuthError::UsernameAlreadyExists)
            && *final(store) == *old(store),
        (r matches Err(e) && e == AuthError::UserNotFound) <==> (forall|j: int|
            0 <= j < old(store).users@.len() ==> (#[trigger] old(store).users@[j]).id != id),
        r matches Err(e) && e == AuthError::UsernameAlreadyExists ==> body.username is Some
            && exists|j: int|
            0 <= j < old(store).users@.len() && (#[trigger] old(store).users@[j]).username is Some
                && old(store).users@[j].username->0@ == body.username->0@ && old(
                store,
            ).users@[j].id != id,
        r matches Ok(row) ==> ({
            &&& row.id == id
            &&& final(store).users@.len() == old(store).users@.len()
            &&& forall|i: int|
                0 <= i < old(store).users@.len() && (#[trigger] old(store).users@[i]).id != id
                    ==> final(store).users@[i] == old(store).users@[i]
            &&& forall|i: int|
                0 <= i < old(store).users@.len() && (#[trigger] old(store).users@[i]).id == id
                    ==> ({
                    let u0 = old(store).users@[i];
                    let u1 = final(store).users@[i];
                    &&& user_me_row_matches(row, u1)
                    &&& opt_str_view(u1.username) == (match opt_str_view(body.username) {
                        Option::Some(un) => Option::Some(un),
                        Option::None => opt_str_view(u0.username),
                    })
                    &&& opt_str_view(u1.profile_picture_url) == (match opt_str_view(
                        body.profile_picture_url,
                    ) {
                        Option::Some(p) => Option::Some(p),
                        Option::None => opt_str_view(u0.profile_picture_url),
                    })
                    &&& u1.email == u0.email
                    &&& u1.role == u0.role
                    &&& u1.password_hash == u0.password_hash
                    &&& u1.oauth_provider == u0.oauth_provider
                    &&& u1.oauth_id == u0.oauth_id
                    &&& u1.is_email_verified == u0.is_email_verified
                    &&& u1.created_at == u0.created_at
                    &&& u1.updated_at == now
                })
            &&& final(store).codes@ == old(store).codes@
            &&& final(store).reset_tokens@ == old(store).reset_tokens@
        }),
{
    let idx = match store.update_profile(id, &body.username, &body.profile_picture_url, now) {
        Ok(i) => i,
        Err(err) => {
            return Err(err);
        },
    };
    proof {
        assert forall|i: int|
            0 <= i < old(store).users@.len() && (#[trigger] old(store).users@[i]).id == id
                implies i == idx as int by {
            if i != idx as int {
                assert(old(store).users@[i].id != old(store).users@[idx as int].id);
            }
        }
    }
    Ok(user_me_row_of(&store.users[idx]))
}

} // verus!
