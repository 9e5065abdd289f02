//! The authorization gate: two ordered checks on an inbound request. First
//! the bearer token is extracted and verified — only then, and never
//! before, can a role be required. The API-key gate for service callers
//! lives here too.

use vstd::prelude::*;
use vstd::string::StrSliceExecFns;
use crate::errors::AuthError;
use crate::jwt::{verify_at, verify_outcome, ClaimsView};
use crate::text::{trim_seq, trim_str, str_eq};

verus! {

/// The identity a verified session token attaches to a request.
#[derive(Debug)]
pub struct AuthUser {
    pub id: i32,
    pub email: String,
    pub role: String,
}

/// A registered API client of the service surface.
#[derive(Debug)]
pub struct ApiClient {
    pub id: i32,
    pub name: String,
    pub api_key: String,
    pub is_active: bool,
}

/// The bearer token inside an Authorization header value: the trimmed
/// value without its `Bearer ` / `bearer ` prefix, itself trimmed; empty
/// when the prefix is missing or nothing follows it.
pub open spec fn bearer_of(h: Seq<char>) -> Seq<char> {
    let t = trim_seq(h);
    if t.len() >= 7 && (t.subrange(0, 7) == "Bearer "@ || t.subrange(0, 7) == "bearer "@) {
        trim_seq(t.subrange(7, t.len() as int))
    } else {
        Seq::empty()
    }
}

/// Extract the bearer token from an Authorization header value.
fn extract_bearer(header: &str) -> (r: String)
    ensures
        r@ == bearer_of(header@),
{
    let t = trim_str(header);
    let n = t.as_str().unicode_len();
    if n < 7 {
        proof {
            reveal_strlit("Bearer ");
            reveal_strlit("bearer ");
        }
        return String::new();
    }
    let prefix = t.as_str().substring_char(0, 7);
    if str_eq(prefix, "Bearer ") || str_eq(prefix, "bearer ") {
        let rest = t.as_str().substring_char(7, n);
        trim_str(rest)
    } else {
        String::new()
    }
}

/// First gate: establish identity. `Err(TokenMissing)` when no header or no
/// bearer token is present; otherwise exactly the token codec's verdict at
/// `now`, with the verified claims attached as the request's identity.
pub fn authenticate(header: Option<&String>, secret: &str, now: usize) -> (r: Result<
    AuthUser,
    AuthError,
>)
    ensures
        match header {
            None => r == Err::<AuthUser, AuthError>(AuthError::TokenMissing),
            Some(h) => {
                let tok = bearer_of(h@);
                if tok.len() == 0 {
                    r == Err::<AuthUser, AuthError>(AuthError::TokenMissing)
                } else {
                    match r {
                        Ok(user) => verify_outcome(tok, secret@, now as int) matches Ok(c)
                            && c.sub == user.id && c.email == user.email@ && c.role == user.role@,
                        Err(e) => e != AuthError::TokenMissing && verify_outcome(
                            tok,
                            secret@,
                            now as int,
                        ) == Err::<ClaimsView, AuthError>(e),
                    }
                }
            },
        },
{
    let h = match header {
        Some(h) => h,
        None => {
            return Err(AuthError::TokenMissing);
        },
    };
    let token = extract_bearer(h.as_str());
    if token.as_str().unicode_len() == 0 {
        return Err(AuthError::TokenMissing);
    }
    match verify_at(token.as_str(), secret, now) {
        Ok(claims) => Ok(AuthUser { id: claims.sub, email: claims.email, role: claims.role }),
        Err(e) => Err(e),
    }
}

/// Second gate: require the elevated role of an already established
/// identity.
pub fn require_admin(user: &AuthUser) -> (r: Result<(), AuthError>)
    ensures
        r is Ok <==> user.role@ == "admin"@,
        r is Err ==> r == Err::<(), AuthError>(AuthError::Forbidden),
{
    if str_eq(user.role.as_str(), "admin") {
        Ok(())
    } else {
        Err(AuthError::Forbidden)
    }
}

/// Both checks in their fixed order: authentication first; the role check
/// runs only after identity is established and only where the route
/// demands it. `Forbidden` therefore always means "authenticated but not
/// allowed": an unauthenticated request never sees it.
pub fn authorize(header: Option<&String>, secret: &str, now: usize, need_admin: bool) -> (r: Result<
    AuthUser,
    AuthError,
>)
    ensures
        r matches Ok(user) ==> (match header {
            Some(h) => bearer_of(h@).len() != 0 && (verify_outcome(
                bearer_of(h@),
                secret@,
                now as int,
            ) matches Ok(c) && c.sub == user.id && c.role == user.role@) && (need_admin
                ==> user.role@ == "admin"@),
            None => false,
        }),
        r matches Err(e) && e == AuthError::Forbidden ==> need_admin && (match header {
            Some(h) => verify_outcome(bearer_of(h@), secret@, now as int) is Ok,
            None => false,
        }),
        !need_admin ==> r != Err::<AuthUser, AuthError>(AuthError::Forbidden),
{
    let user = match authenticate(header, secret, now) {
        Ok(u) => u,
        Err(e) => {
            return Err(e);
        },
    };
    if need_admin {
        match require_admin(&user) {
            Ok(_) => {},
            Err(e) => {
                return Err(e);
            },
        }
    }
    Ok(user)
}

/// The service gate: find the presented key among the registered clients.
/// An empty or absent key, an unknown key, and a deactivated client each
/// fail with their own verdict; success names the client.
pub fn authorize_api_key(clients: &Vec<ApiClient>, key: Option<&String>) -> (r: Result<
    usize,
    AuthError,
>)
    ensures
        match r {
            Ok(i) => i < clients@.len() && clients@[i as int].api_key@ == trim_seq(
                key->0@,
            ) && clients@[i as int].is_active && key is Some && trim_seq(key->0@).len() != 0,
            Err(e) => (e == AuthError::ApiKeyMissing && (key is None || trim_seq(key->0@).len()
                == 0)) || (e == AuthError::ApiKeyInvalid && forall|j: int|
                0 <= j < clients@.len() ==> (#[trigger] clients@[j]).api_key@ != trim_seq(key->0@))
                || e == AuthError::ApiKeyInactive,
        },
        r matches Err(e) && e == AuthError::ApiKeyInactive ==> exists|j: int|
            0 <= j < clients@.len() && (#[trigger] clients@[j]).api_key@ == trim_seq(key->0@)
                && !clients@[j].is_active,
{
    let k = match key {
        Some(k) => trim_str(k.as_str()),
        None => {
            return Err(AuthError::ApiKeyMissing);
        },
    };
    if k.as_str().unicode_len() == 0 {
        return Err(AuthError::ApiKeyMissing);
    }
    let n = clients.len();
    let mut i: usize = 0;
    while i < n
        invariant
            0 <= i <= n,
            n == clients@.len(),
            key is Some,
            k@ == trim_seq(key->0@),
            k@.len() != 0,
            forall|j: int| 0 <= j < i ==> (#[trigger] clients@[j]).api_key@ != k@,
        decreases n - i,
    {
        if str_eq(clients[i].api_key.as_str(), k.as_str()) {
            if clients[i].is_active {
                return Ok(i);
            } else {
                return Err(AuthError::ApiKeyInactive);
            }
        }
        i = i + 1;
    }
    Err(AuthError::ApiKeyInvalid)
}

} // verus!
