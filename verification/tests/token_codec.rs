use auth_core::config::Env;
use auth_core::errors::AuthError;
use auth_core::gate::{authenticate, authorize, require_admin, authorize_api_key, ApiClient,
    AuthUser};
use auth_core::jwt::{sign_at, verify_at, exp_from_env, now_ts};

fn env_with_ttl(ttl: &str) -> Env {
    Env {
        port: 5000,
        database_url: String::new(),
        jwt_secret: "s3cret".to_string(),
        jwt_expires_in: ttl.to_string(),
        google_client_id: String::new(),
        google_client_secret: String::new(),
        google_redirect_uri: String::new(),
        allowed_origins: Vec::new(),
        rate_limit_auth_max: 30,
        download_windows_path: String::new(),
        download_android_path: String::new(),
    }
}

#[test]
fn token_round_trip_preserves_claims() {
    // sign then verify: matching sub, email, role, and exp - iat == ttl.
    let token = sign_at(7, "u@example.com", "user", 3600, 1000, "s3cret").unwrap();
    let claims = verify_at(&token, "s3cret", 2000).unwrap();
    assert_eq!(claims.sub, 7);
    assert_eq!(claims.email, "u@example.com");
    assert_eq!(claims.role, "user");
    assert_eq!(claims.iat, 1000);
    assert_eq!(claims.exp, 4600);
    assert_eq!(claims.exp - claims.iat, 3600);
}

#[test]
fn token_expires_exactly_at_exp() {
    let token = sign_at(7, "u@example.com", "user", 3600, 1000, "s3cret").unwrap();
    assert!(verify_at(&token, "s3cret", 4599).is_ok());
    assert_eq!(verify_at(&token, "s3cret", 4600).unwrap_err(), AuthError::TokenExpired);
    assert_eq!(verify_at(&token, "s3cret", 9999).unwrap_err(), AuthError::TokenExpired);
}

#[test]
fn token_wrong_secret_is_invalid() {
    let token = sign_at(7, "u@example.com", "user", 3600, 1000, "s3cret").unwrap();
    assert_eq!(verify_at(&token, "other", 2000).unwrap_err(), AuthError::TokenInvalid);
}

#[test]
fn token_signature_mutation_is_invalid() {
    // Flipping any single character of the signature segment must fail
    // verification; every position is tried.
    let token = sign_at(7, "u@example.com", "user", 3600, 1000, "s3cret").unwrap();
    let parts: Vec<&str> = token.split('.').collect();
    assert_eq!(parts.len(), 3);
    let sig = parts[2];
    for i in 0..sig.len() {
        let mut bytes = sig.as_bytes().to_vec();
        bytes[i] = if bytes[i] == b'A' { b'B' } else { b'A' };
        let mutated_sig = String::from_utf8(bytes).unwrap();
        if mutated_sig == sig {
            continue;
        }
        let mutated = format!("{}.{}.{}", parts[0], parts[1], mutated_sig);
        assert!(verify_at(&mutated, "s3cret", 2000).is_err());
    }
}

#[test]
fn garbage_token_is_invalid() {
    assert_eq!(verify_at("not-a-token", "s3cret", 0).unwrap_err(), AuthError::TokenInvalid);
    assert_eq!(verify_at("", "s3cret", 0).unwrap_err(), AuthError::TokenInvalid);
}

#[test]
fn ttl_grammar_parses_units_and_defaults() {
    assert_eq!(exp_from_env(&env_with_ttl("30d")), 2_592_000);
    assert_eq!(exp_from_env(&env_with_ttl("12h")), 43_200);
    assert_eq!(exp_from_env(&env_with_ttl("5m")), 300);
    assert_eq!(exp_from_env(&env_with_ttl("45s")), 45);
    assert_eq!(exp_from_env(&env_with_ttl("600")), 600);
    assert_eq!(exp_from_env(&env_with_ttl(" 10s ")), 10);
    // Unreadable input — empty, unknown unit, missing or non-numeric
    // count — falls back to the seven-day default.
    assert_eq!(exp_from_env(&env_with_ttl("")), 604_800);
    assert_eq!(exp_from_env(&env_with_ttl("soon")), 604_800);
    assert_eq!(exp_from_env(&env_with_ttl("12x3")), 604_800);
    assert_eq!(exp_from_env(&env_with_ttl("d")), 604_800);
    assert_eq!(exp_from_env(&env_with_ttl("m")), 604_800);
    assert_eq!(exp_from_env(&env_with_ttl("xz5m")), 604_800);
}

#[test]
fn clock_reads_something_positive() {
    assert!(now_ts() > 0);
}

#[test]
fn bearer_extraction_both_spellings() {
    let token = sign_at(7, "u@example.com", "user", 3600, 1000, "s3cret").unwrap();
    for prefix in ["Bearer", "bearer"] {
        let header = format!("  {} {}  ", prefix, token);
        let user = authenticate(Some(&header), "s3cret", 2000).unwrap();
        assert_eq!(user.id, 7);
        assert_eq!(user.email, "u@example.com");
        assert_eq!(user.role, "user");
    }
}

#[test]
fn missing_or_empty_bearer_is_token_missing() {
    assert_eq!(authenticate(None, "s3cret", 0).unwrap_err(), AuthError::TokenMissing);
    let no_prefix = "s0me.t0ken.here".to_string();
    assert_eq!(authenticate(Some(&no_prefix), "s3cret", 0).unwrap_err(), AuthError::TokenMissing);
    let empty = "Bearer    ".to_string();
    assert_eq!(authenticate(Some(&empty), "s3cret", 0).unwrap_err(), AuthError::TokenMissing);
}

#[test]
fn gate_orders_authentication_before_role() {
    let user_token = sign_at(7, "u@example.com", "user", 3600, 1000, "s3cret").unwrap();
    let admin_token = sign_at(8, "root@example.com", "admin", 3600, 1000, "s3cret").unwrap();
    let user_header = format!("Bearer {}", user_token);
    let admin_header = format!("Bearer {}", admin_token);
    // A valid non-admin session reaches the role check and is forbidden.
    assert_eq!(authorize(Some(&user_header), "s3cret", 2000, true).unwrap_err(),
        AuthError::Forbidden);
    // An invalid session never reaches the role check: unauthenticated, not
    // forbidden.
    let bad = "Bearer junk".to_string();
    assert_eq!(authorize(Some(&bad), "s3cret", 2000, true).unwrap_err(), AuthError::TokenInvalid);
    // An admin session passes both gates.
    let admin = authorize(Some(&admin_header), "s3cret", 2000, true).unwrap();
    assert_eq!(admin.id, 8);
    // Without the admin requirement the non-admin session passes.
    assert!(authorize(Some(&user_header), "s3cret", 2000, false).is_ok());
}

#[test]
fn require_admin_checks_role_string() {
    let admin = AuthUser { id: 1, email: "a@x.com".to_string(), role: "admin".to_string() };
    let user = AuthUser { id: 2, email: "b@x.com".to_string(), role: "user".to_string() };
    assert!(require_admin(&admin).is_ok());
    assert_eq!(require_admin(&user).unwrap_err(), AuthError::Forbidden);
}

#[test]
fn api_key_gate_verdicts() {
    let clients = vec![
        ApiClient {
            id: 1,
            name: "web".to_string(),
            api_key: "live-key".to_string(),
            is_active: true,
        },
        ApiClient {
            id: 2,
            name: "old".to_string(),
            api_key: "dead-key".to_string(),
            is_active: false,
        },
    ];
    assert_eq!(authorize_api_key(&clients, None).unwrap_err(), AuthError::ApiKeyMissing);
    let blank = "   ".to_string();
    assert_eq!(authorize_api_key(&clients, Some(&blank)).unwrap_err(), AuthError::ApiKeyMissing);
    let unknown = "nope".to_string();
    assert_eq!(authorize_api_key(&clients, Some(&unknown)).unwrap_err(), AuthError::ApiKeyInvalid);
    let dead = "dead-key".to_string();
    assert_eq!(authorize_api_key(&clients, Some(&dead)).unwrap_err(), AuthError::ApiKeyInactive);
    let live = " live-key ".to_string();
    assert_eq!(authorize_api_key(&clients, Some(&live)).unwrap(), 0);
}
