//! Token codec: signed, self-contained session tokens. The wire format is
//! compact JWT with the algorithm pinned to HS256; signing and signature
//! checking are done by the jsonwebtoken crate behind two trusted wrappers,
//! while expiry checking and lifetime parsing are verified here.
//!
//! The abstract content of a token under a secret is named by
//! `token_claims`; both wrappers speak of that one name, so the round trip
//! between `sign` and `verify` is provable.

use vstd::prelude::*;
use vstd::string::StrSliceExecFns;
use std::collections::HashSet;
use jsonwebtoken::{decode, Algorithm, DecodingKey, EncodingKey, Header, Validation};
use serde_json::Value;
use crate::config::Env;
use crate::errors::AuthError;
use crate::text::{trim_str, parse_decimal, trim_seq, all_digits, dec_val, is_digit_char};

verus! {

/// The claims carried by a session token.
#[derive(Debug)]
pub struct Claims {
    pub sub: i32,
    pub email: String,
    pub role: String,
    pub exp: usize,
    pub iat: usize,
}

/// Mathematical image of `Claims`.
pub struct ClaimsView {
    pub sub: int,
    pub email: Seq<char>,
    pub role: Seq<char>,
    pub exp: int,
    pub iat: int,
}

impl View for Claims {
    type V = ClaimsView;

    open spec fn view(&self) -> ClaimsView {
        ClaimsView {
            sub: self.sub as int,
            email: self.email@,
            role: self.role@,
            exp: self.exp as int,
            iat: self.iat as int,
        }
    }
}

/// The claims a token carries under a secret, if its shape is the pinned
/// three-segment HS256 form, its signature verifies under that secret, and
/// its payload holds the five expected fields in representable ranges;
/// `None` otherwise. This is a function of the token and secret alone —
/// expiry is deliberately not part of it.
pub uninterp spec fn token_claims(token: Seq<char>, secret: Seq<char>) -> Option<ClaimsView>;

/// Relies on `jsonwebtoken::encode` with the default HS256 header: the
/// returned token carries exactly the given claims under the given secret,
/// which is what `jsonwebtoken::decode` recovers from it.
#[verifier::external_body]
fn jwt_encode(sub: i32, email: &str, role: &str, iat: usize, exp: usize, secret: &str) -> (r:
    Option<String>)
    ensures
        r matches Some(t) ==> token_claims(t@, secret@) == Some(
            ClaimsView {
                sub: sub as int,
                email: email@,
                role: role@,
                exp: exp as int,
                iat: iat as int,
            },
        ),
{
    let mut m = serde_json::Map::new();
    m.insert("sub".to_string(), Value::from(sub));
    m.insert("email".to_string(), Value::from(email));
    m.insert("role".to_string(), Value::from(role));
    m.insert("iat".to_string(), Value::from(iat as u64));
    m.insert("exp".to_string(), Value::from(exp as u64));
    let key = EncodingKey::from_secret(secret.as_bytes());
    jsonwebtoken::encode(&Header::default(), &Value::Object(m), &key).ok()
}

/// Relies on `jsonwebtoken::decode` restricted to HS256, with its own expiry
/// check switched off so that the result depends on the token and secret
/// alone: it succeeds on tokens whose signature verifies, which pass the
/// decoder's remaining default checks (in particular, a payload carrying an
/// `aud` claim is rejected, since no expected audience is configured), and
/// whose payload carries the five expected fields; it then yields those
/// fields.
#[verifier::external_body]
fn jwt_decode(token: &str, secret: &str) -> (r: Option<Claims>)
    ensures
        r matches Some(c) ==> token_claims(token@, secret@) == Some(c@),
        r is None ==> token_claims(token@, secret@) is None,
{
    let mut v = Validation::new(Algorithm::HS256);
    v.validate_exp = false;
    v.required_spec_claims = HashSet::new();
    let key = DecodingKey::from_secret(secret.as_bytes());
    let c = decode::<Value>(token, &key, &v).ok()?.claims;
    let sub = i32::try_from(c.get("sub")?.as_i64()?).ok()?;
    let email = c.get("email")?.as_str()?.to_string();
    let role = c.get("role")?.as_str()?.to_string();
    let iat = usize::try_from(c.get("iat")?.as_u64()?).ok()?;
    let exp = usize::try_from(c.get("exp")?.as_u64()?).ok()?;
    Some(Claims { sub, email, role, exp, iat })
}

/// Relies on `SystemTime::now`: the current time in whole seconds since the
/// Unix epoch (zero if the clock reads before the epoch). Nothing can be
/// promised about the value of a clock.
#[verifier::external_body]
pub fn now_ts() -> (r: usize)
{
    std::time::SystemTime::now()
        .duration_since(std::time::UNIX_EPOCH)
        .map(|d| d.as_secs() as usize)
        .unwrap_or(0)
}

/// Seconds per configured duration unit; zero marks an unknown unit.
pub open spec fn unit_secs(c: char) -> int {
    if c == 's' {
        1
    } else if c == 'm' {
        60
    } else if c == 'h' {
        3600
    } else if c == 'd' {
        86400
    } else {
        0
    }
}

/// Token lifetime in seconds derived from a configured duration string with
/// grammar `<integer><unit>` (unit one of s, m, h, d) or a bare integer of
/// seconds. Anything unreadable — an unknown unit, a missing count, a
/// non-numeric count, or a value that does not fit in `usize` — falls back
/// to the seven-day default.
pub open spec fn jwt_ttl(s: Seq<char>) -> int {
    let t = trim_seq(s);
    if t.len() == 0 {
        604800
    } else if is_digit_char(t[t.len() - 1]) {
        if all_digits(t) && dec_val(t) <= usize::MAX {
            dec_val(t)
        } else {
            604800
        }
    } else {
        let num = t.subrange(0, t.len() - 1);
        let m = unit_secs(t[t.len() - 1]);
        if m == 0 || !(num.len() > 0 && all_digits(num) && dec_val(num) <= usize::MAX) {
            604800
        } else if dec_val(num) * m <= usize::MAX {
            dec_val(num) * m
        } else {
            604800
        }
    }
}

/// Parse the configured token lifetime.
pub fn exp_from_env(env: &Env) -> (r: usize)
    ensures
        r == jwt_ttl(env.jwt_expires_in@),
{
    let t = trim_str(env.jwt_expires_in.as_str());
    let n = t.as_str().unicode_len();
    if n == 0 {
        return 604800;
    }
    let last = t.as_str().get_char(n - 1);
    if last >= '0' && last <= '9' {
        match parse_decimal(t.as_str()) {
            Option::Some(v) => v,
            Option::None => 604800,
        }
    } else {
        let num = t.as_str().substring_char(0, n - 1);
        let mult: usize = if last == 's' {
            1
        } else if last == 'm' {
            60
        } else if last == 'h' {
            3600
        } else if last == 'd' {
            86400
        } else {
            0
        };
        if mult == 0 {
            return 604800;
        }
        let count: usize = match parse_decimal(num) {
            Option::Some(v) => v,
            Option::None => {
                return 604800;
            },
        };
        match count.checked_mul(mult) {
            Option::Some(v) => v,
            Option::None => 604800,
        }
    }
}

/// Sign a session token with an explicit issue time: the token carries
/// exactly `{sub, email, role, iat, exp = iat + ttl}` under the secret.
/// Fails only on an internal fault of the signing backend.
pub fn sign_at(user_id: i32, email: &str, role: &str, ttl: usize, iat: usize, secret: &str) -> (r:
    Result<String, AuthError>)
    requires
        iat + ttl <= usize::MAX,
    ensures
        r matches Ok(t) ==> token_claims(t@, secret@) == Some(
            ClaimsView {
                sub: user_id as int,
                email: email@,
                role: role@,
                exp: iat + ttl,
                iat: iat as int,
            },
        ),
        r matches Err(e) ==> e == AuthError::Internal,
{
    let exp = iat + ttl;
    match jwt_encode(user_id, email, role, iat, exp, secret) {
        Option::Some(t) => Ok(t),
        Option::None => Err(AuthError::Internal),
    }
}

/// Sign a session token issued now, with the lifetime configured in `env`.
/// Whatever the clock read, a returned token carries the given identity and
/// an expiry exactly the configured lifetime after its issue time.
pub fn sign(user_id: i32, email: String, role: String, env: &Env) -> (r: Result<
    String,
    AuthError,
>)
    ensures
        r matches Ok(t) ==> ({
            let oc = token_claims(t@, env.jwt_secret@);
            &&& oc is Some
            &&& oc->0.sub == user_id as int
            &&& oc->0.email == email@
            &&& oc->0.role == role@
            &&& 0 <= oc->0.iat
            &&& oc->0.exp == oc->0.iat + jwt_ttl(env.jwt_expires_in@)
        }),
        r matches Err(e) ==> e == AuthError::Internal,
{
    let iat = now_ts();
    let ttl = exp_from_env(env);
    if iat > usize::MAX - ttl {
        return Err(AuthError::Internal);
    }
    sign_at(user_id, email.as_str(), role.as_str(), ttl, iat, env.jwt_secret.as_str())
}

/// What verification yields for a token, secret and moment: the carried
/// claims when the signature checks out and the expiry has not passed,
/// otherwise exactly which of the two failures applies.
pub open spec fn verify_outcome(token: Seq<char>, secret: Seq<char>, now: int) -> Result<
    ClaimsView,
    AuthError,
> {
    match token_claims(token, secret) {
        Some(c) => if c.exp <= now {
            Err(AuthError::TokenExpired)
        } else {
            Ok(c)
        },
        None => Err(AuthError::TokenInvalid),
    }
}

/// Verify a token against a secret at an explicit moment.
pub fn verify_at(token: &str, secret: &str, now: usize) -> (r: Result<Claims, AuthError>)
    ensures
        match r {
            Ok(c) => verify_outcome(token@, secret@, now as int) == Ok::<ClaimsView, AuthError>(c@),
            Err(e) => verify_outcome(token@, secret@, now as int) == Err::<ClaimsView, AuthError>(
                e,
            ),
        },
{
    match jwt_decode(token, secret) {
        Option::Some(c) => {
            if c.exp <= now {
                Err(AuthError::TokenExpired)
            } else {
                Ok(c)
            }
        },
        Option::None => Err(AuthError::TokenInvalid),
    }
}

/// Verify a token against the given secret at the current time. Whatever the
/// clock read: a success carries exactly the token's claims, a token whose
/// signature does not check out is always rejected as invalid, and the two
/// failure kinds are the only ones possible.
pub fn verify_with_secret(token: &str, jwt_secret: &str) -> (r: Result<Claims, AuthError>)
    ensures
        r matches Ok(c) ==> token_claims(token@, jwt_secret@) == Some(c@),
        token_claims(token@, jwt_secret@) is None ==> r == Err::<Claims, AuthError>(
            AuthError::TokenInvalid,
        ),
        r matches Err(e) ==> (e == AuthError::TokenInvalid || e == AuthError::TokenExpired),
        r matches Err(e) && e == AuthError::TokenExpired ==> token_claims(token@, jwt_secret@)
            is Some,
{
    let now = now_ts();
    verify_at(token, jwt_secret, now)
}

/// Verify a token under the configured secret.
pub fn verify(token: &str, env: &Env) -> (r: Result<Claims, AuthError>)
    ensures
        r matches Ok(c) ==> token_claims(token@, env.jwt_secret@) == Some(c@),
        token_claims(token@, env.jwt_secret@) is None ==> r == Err::<Claims, AuthError>(
            AuthError::TokenInvalid,
        ),
        r matches Err(e) ==> (e == AuthError::TokenInvalid || e == AuthError::TokenExpired),
{
    verify_with_secret(token, env.jwt_secret.as_str())
}

/// Token round trip: a token that carries `{sub, email, role, iat, iat+ttl}`
/// — as every token produced by `sign_at` does — verifies before its expiry
/// to exactly those claims, whose lifetime `exp - iat` is the requested
/// `ttl`.
pub proof fn lemma_token_round_trip(
    token: Seq<char>,
    secret: Seq<char>,
    sub: int,
    email: Seq<char>,
    role: Seq<char>,
    iat: int,
    ttl: int,
    now: int,
)
    requires
        token_claims(token, secret) == Some(
            ClaimsView { sub: sub, email: email, role: role, exp: iat + ttl, iat: iat },
        ),
        now < iat + ttl,
    ensures
        verify_outcome(token, secret, now) == Ok::<ClaimsView, AuthError>(
            ClaimsView { sub: sub, email: email, role: role, exp: iat + ttl, iat: iat },
        ),
        verify_outcome(token, secret, now)->Ok_0.exp - verify_outcome(token, secret, now)->Ok_0.iat
            == ttl,
{
}

} // verus!
