use auth_core::auth_api::{register, login, complete_profile, start_registration, verify_code,
    CompleteProfileBody, VerifyCodeBody};
use auth_core::config::Env;
use auth_core::errors::AuthError;
use auth_core::jwt::{verify, verify_with_secret};
use auth_core::store::AuthStore;

fn env_for_auth_flows() -> Env {
    Env {
        port: 5000,
        database_url: String::new(),
        jwt_secret: "test-secret".to_string(),
        jwt_expires_in: "1h".to_string(),
        google_client_id: String::new(),
        google_client_secret: String::new(),
        google_redirect_uri: String::new(),
        allowed_origins: Vec::new(),
        rate_limit_auth_max: 30,
        download_windows_path: String::new(),
        download_android_path: String::new(),
    }
}

#[test]
fn register_creates_user_with_token() {
    // Scenario: a fresh registration yields role "user", an unverified
    // email, and a token whose subject is the new user's id.
    let mut store = AuthStore::new();
    let env = env_for_auth_flows();
    let resp = register(&mut store, "a@x.com", "secret123", &env, 100).unwrap();
    assert_eq!(resp.user.email, "a@x.com");
    assert_eq!(resp.user.role, "user");
    assert!(!resp.user.is_email_verified);
    let claims = verify(&resp.token, &env).unwrap();
    assert_eq!(claims.sub, resp.user.id);
    assert_eq!(claims.email, "a@x.com");
    assert_eq!(claims.role, "user");
}

#[test]
fn second_registration_same_email_fails() {
    let mut store = AuthStore::new();
    let env = env_for_auth_flows();
    register(&mut store, "a@x.com", "secret123", &env, 100).unwrap();
    let second = register(&mut store, "a@x.com", "other-password", &env, 200);
    assert_eq!(second.unwrap_err(), AuthError::EmailAlreadyExists);
}

#[test]
fn registration_email_is_normalized() {
    let mut store = AuthStore::new();
    let env = env_for_auth_flows();
    register(&mut store, "  A@X.com ", "secret123", &env, 100).unwrap();
    let second = register(&mut store, "a@x.com", "secret123", &env, 200);
    assert_eq!(second.unwrap_err(), AuthError::EmailAlreadyExists);
    // Login under the normalized spelling reaches the same account.
    assert!(login(&store, "A@X.COM", "secret123", &env).is_ok());
}

#[test]
fn login_round_trip_accepts_registered_password() {
    let mut store = AuthStore::new();
    let env = env_for_auth_flows();
    let reg = register(&mut store, "a@x.com", "secret123", &env, 100).unwrap();
    let resp = login(&store, "a@x.com", "secret123", &env).unwrap();
    assert_eq!(resp.user.id, reg.user.id);
    let claims = verify_with_secret(&resp.token, "test-secret").unwrap();
    assert_eq!(claims.sub, reg.user.id);
}

#[test]
fn login_wrong_password_is_invalid_credentials() {
    // Scenario: a wrong password yields InvalidCredentials and no token.
    let mut store = AuthStore::new();
    let env = env_for_auth_flows();
    register(&mut store, "a@x.com", "secret123", &env, 100).unwrap();
    let r = login(&store, "a@x.com", "wrongpass", &env);
    assert_eq!(r.unwrap_err(), AuthError::InvalidCredentials);
}

#[test]
fn login_unknown_email_is_invalid_credentials() {
    let store = AuthStore::new();
    let env = env_for_auth_flows();
    let r = login(&store, "nobody@x.com", "whatever1", &env);
    assert_eq!(r.unwrap_err(), AuthError::InvalidCredentials);
}

#[test]
fn register_rejects_short_password() {
    let mut store = AuthStore::new();
    let env = env_for_auth_flows();
    let r = register(&mut store, "a@x.com", "short", &env, 100);
    assert_eq!(r.unwrap_err(), AuthError::WeakPassword);
}

#[test]
fn register_rejects_empty_email() {
    let mut store = AuthStore::new();
    let env = env_for_auth_flows();
    let r = register(&mut store, "   ", "secret123", &env, 100);
    assert_eq!(r.unwrap_err(), AuthError::MissingCriteria);
}

#[test]
fn multi_step_signup_round_trip() {
    // start -> code -> verify -> complete profile -> login.
    let mut store = AuthStore::new();
    let env = env_for_auth_flows();
    let (uid, code) = start_registration(&mut store, "a@x.com", 100).unwrap();
    assert_eq!(uid, 1);
    assert_eq!(code.len(), 6);
    assert!(code.chars().all(|c| c.is_ascii_digit()));
    let vb = VerifyCodeBody { email: "a@x.com".to_string(), code };
    verify_code(&mut store, &vb, 400).unwrap();
    let cp = CompleteProfileBody {
        email: "a@x.com".to_string(),
        username: "ada".to_string(),
        password: "secret123".to_string(),
    };
    let resp = complete_profile(&mut store, &cp, &env, 500).unwrap();
    assert_eq!(resp.user.username.as_deref(), Some("ada"));
    assert!(resp.user.is_email_verified);
    assert!(login(&store, "a@x.com", "secret123", &env).is_ok());
    // The completed account refuses another signup attempt.
    assert_eq!(start_registration(&mut store, "a@x.com", 600).unwrap_err(),
        AuthError::EmailAlreadyExists);
}

#[test]
fn signup_code_expires_after_ten_minutes() {
    let mut store = AuthStore::new();
    let (_, code) = start_registration(&mut store, "a@x.com", 100).unwrap();
    let vb = VerifyCodeBody { email: "a@x.com".to_string(), code };
    // 700 seconds after issuance the code is past its ten-minute life.
    assert_eq!(verify_code(&mut store, &vb, 800).unwrap_err(), AuthError::CodeInvalid);
}

#[test]
fn google_oauth_signs_in_and_issues_token() {
    let mut store = AuthStore::new();
    let env = env_for_auth_flows();
    let body = auth_core::auth_api::GoogleOAuthBody {
        email: "G@X.com".to_string(),
        oauth_id: "g-42".to_string(),
        username: Some("gina".to_string()),
        picture_url: None,
    };
    let resp = auth_core::auth_api::google_oauth(&mut store, &body, &env, 100).unwrap();
    assert_eq!(resp.user.email, "g@x.com");
    assert_eq!(resp.user.username.as_deref(), Some("gina"));
    assert!(resp.user.is_email_verified);
    let claims = verify(&resp.token, &env).unwrap();
    assert_eq!(claims.sub, resp.user.id);
    // Signing in again with the same assertion reuses the record.
    let again = auth_core::auth_api::google_oauth(&mut store, &body, &env, 200).unwrap();
    assert_eq!(again.user.id, resp.user.id);
}

#[test]
fn complete_profile_requires_verified_email() {
    let mut store = AuthStore::new();
    let env = env_for_auth_flows();
    auth_core::internal_api::create_user_email(
        &mut store,
        &auth_core::internal_api::CreateUserEmailBody { email: "a@x.com".to_string() },
        100,
    )
    .unwrap();
    let body = CompleteProfileBody {
        email: "a@x.com".to_string(),
        username: "alice2".to_string(),
        password: "secret123".to_string(),
    };
    let r = complete_profile(&mut store, &body, &env, 200);
    assert_eq!(r.unwrap_err(), AuthError::NotVerified);
}
