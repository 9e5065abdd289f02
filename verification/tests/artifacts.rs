use auth_core::errors::AuthError;
use auth_core::internal_api::{
    create_user_email, store_verification_code, verify_code, create_reset_token,
    consume_reset_token, set_password, CreateUserEmailBody, StoreVerificationCodeBody,
    VerifyCodeBody, CreateResetTokenBody, ConsumeResetTokenBody, SetPasswordBody,
};
use auth_core::store::AuthStore;

const FAR_FUTURE: &str = "2030-01-01T00:00:00+00:00";

/// Five placeholder accounts; the fifth (id 5) stores a@x.com.
fn store_with_five_users() -> AuthStore {
    let mut store = AuthStore::new();
    for (i, email) in ["b1@x.com", "b2@x.com", "b3@x.com", "b4@x.com", "a@x.com"]
        .iter()
        .enumerate()
    {
        let u = create_user_email(
            &mut store,
            &CreateUserEmailBody { email: email.to_string() },
            10 + i as i64,
        )
        .unwrap();
        assert_eq!(u.id, i as i32 + 1);
    }
    store
}

#[test]
fn verification_code_round_trip_and_single_use() {
    // Scenario: a code stored for user 5 verifies a@x.com once within its
    // lifetime, marks the email verified, and cannot be used again.
    let mut store = store_with_five_users();
    store_verification_code(
        &mut store,
        &StoreVerificationCodeBody {
            user_id: 5,
            code: "482913".to_string(),
            expires_at: FAR_FUTURE.to_string(),
        },
    )
    .unwrap();
    let body = VerifyCodeBody { email: "a@x.com".to_string(), code: "482913".to_string() };
    let first = verify_code(&mut store, &body, 1000).unwrap();
    assert!(first.ok);
    assert_eq!(first.user_id, 5);
    let me = auth_core::users_api::get_by_id(&store, 5).unwrap();
    assert!(me.is_email_verified);
    let second = verify_code(&mut store, &body, 1000).unwrap();
    assert!(!second.ok);
    assert_eq!(second.user_id, 0);
}

#[test]
fn verification_code_wrong_guess_does_not_mutate() {
    let mut store = store_with_five_users();
    store_verification_code(
        &mut store,
        &StoreVerificationCodeBody {
            user_id: 5,
            code: "482913".to_string(),
            expires_at: FAR_FUTURE.to_string(),
        },
    )
    .unwrap();
    let wrong = VerifyCodeBody { email: "a@x.com".to_string(), code: "000000".to_string() };
    assert!(!verify_code(&mut store, &wrong, 1000).unwrap().ok);
    // The right code still works afterwards: the wrong guess consumed nothing.
    let right = VerifyCodeBody { email: "a@x.com".to_string(), code: "482913".to_string() };
    assert!(verify_code(&mut store, &right, 1000).unwrap().ok);
}

#[test]
fn expired_verification_code_is_rejected() {
    let mut store = store_with_five_users();
    store_verification_code(
        &mut store,
        &StoreVerificationCodeBody {
            user_id: 5,
            code: "482913".to_string(),
            expires_at: "1970-01-01T00:10:00+00:00".to_string(),
        },
    )
    .unwrap();
    let body = VerifyCodeBody { email: "a@x.com".to_string(), code: "482913".to_string() };
    // 600 seconds in, the code is at its expiry bound and no longer live.
    assert!(!verify_code(&mut store, &body, 600).unwrap().ok);
}

#[test]
fn new_code_replaces_old_code() {
    let mut store = store_with_five_users();
    for code in ["111111", "222222"] {
        store_verification_code(
            &mut store,
            &StoreVerificationCodeBody {
                user_id: 5,
                code: code.to_string(),
                expires_at: FAR_FUTURE.to_string(),
            },
        )
        .unwrap();
    }
    let old = VerifyCodeBody { email: "a@x.com".to_string(), code: "111111".to_string() };
    assert!(!verify_code(&mut store, &old, 1000).unwrap().ok);
    let new = VerifyCodeBody { email: "a@x.com".to_string(), code: "222222".to_string() };
    assert!(verify_code(&mut store, &new, 1000).unwrap().ok);
}

#[test]
fn verification_code_unknown_email_is_not_found() {
    let mut store = store_with_five_users();
    let body = VerifyCodeBody { email: "zz@x.com".to_string(), code: "482913".to_string() };
    assert_eq!(verify_code(&mut store, &body, 1000).unwrap_err(), AuthError::UserNotFound);
}

#[test]
fn verification_code_bad_date_is_rejected() {
    let mut store = store_with_five_users();
    let r = store_verification_code(
        &mut store,
        &StoreVerificationCodeBody {
            user_id: 5,
            code: "482913".to_string(),
            expires_at: "next tuesday".to_string(),
        },
    );
    assert_eq!(r.unwrap_err(), AuthError::InvalidDate);
}

#[test]
fn reset_token_round_trip_and_single_use() {
    // Scenario: a token issued for a@x.com resolves to user 5 exactly once;
    // an immediate second consume fails uniformly.
    let mut store = store_with_five_users();
    create_reset_token(
        &mut store,
        &CreateResetTokenBody {
            email: "a@x.com".to_string(),
            token: "tok123".to_string(),
            expires_at: FAR_FUTURE.to_string(),
        },
    )
    .unwrap();
    let body = ConsumeResetTokenBody { token: "tok123".to_string() };
    let user = consume_reset_token(&mut store, &body, 1000).unwrap();
    assert_eq!(user.id, 5);
    let second = consume_reset_token(&mut store, &body, 1000);
    assert_eq!(second.unwrap_err(), AuthError::ResetTokenInvalid);
}

#[test]
fn reset_token_unknown_email_is_silent_noop() {
    let mut store = store_with_five_users();
    create_reset_token(
        &mut store,
        &CreateResetTokenBody {
            email: "ghost@x.com".to_string(),
            token: "tok999".to_string(),
            expires_at: FAR_FUTURE.to_string(),
        },
    )
    .unwrap();
    let body = ConsumeResetTokenBody { token: "tok999".to_string() };
    assert_eq!(consume_reset_token(&mut store, &body, 1000).unwrap_err(),
        AuthError::ResetTokenInvalid);
}

#[test]
fn expired_reset_token_is_rejected() {
    let mut store = store_with_five_users();
    create_reset_token(
        &mut store,
        &CreateResetTokenBody {
            email: "a@x.com".to_string(),
            token: "tok123".to_string(),
            expires_at: "1970-01-01T00:30:00+00:00".to_string(),
        },
    )
    .unwrap();
    let body = ConsumeResetTokenBody { token: "tok123".to_string() };
    assert_eq!(consume_reset_token(&mut store, &body, 1800).unwrap_err(),
        AuthError::ResetTokenInvalid);
}

#[test]
fn set_password_invalidates_outstanding_tokens() {
    let mut store = store_with_five_users();
    create_reset_token(
        &mut store,
        &CreateResetTokenBody {
            email: "a@x.com".to_string(),
            token: "tok123".to_string(),
            expires_at: FAR_FUTURE.to_string(),
        },
    )
    .unwrap();
    set_password(
        &mut store,
        &SetPasswordBody { user_id: 5, new_password: "freshpass".to_string() },
        1000,
    )
    .unwrap();
    let body = ConsumeResetTokenBody { token: "tok123".to_string() };
    assert_eq!(consume_reset_token(&mut store, &body, 1000).unwrap_err(),
        AuthError::ResetTokenInvalid);
}

#[test]
fn forgot_and_reset_password_flow() {
    let mut store = AuthStore::new();
    let env = auth_core::config::Env {
        port: 0,
        database_url: String::new(),
        jwt_secret: "s".to_string(),
        jwt_expires_in: "1h".to_string(),
        google_client_id: String::new(),
        google_client_secret: String::new(),
        google_redirect_uri: String::new(),
        allowed_origins: Vec::new(),
        rate_limit_auth_max: 1,
        download_windows_path: String::new(),
        download_android_path: String::new(),
    };
    auth_core::auth_api::register(&mut store, "a@x.com", "oldpass99", &env, 100).unwrap();
    let token = auth_core::auth_api::forgot_password(&mut store, "a@x.com", 100)
        .unwrap()
        .expect("known email must yield a token");
    assert_eq!(token.len(), 32);
    let body = auth_core::auth_api::ResetPasswordBody {
        token: token.clone(),
        new_password: "newpass99".to_string(),
    };
    auth_core::auth_api::reset_password(&mut store, &body, 200).unwrap();
    // The old password no longer works; the new one does.
    assert!(auth_core::auth_api::login(&store, "a@x.com", "oldpass99", &env).is_err());
    assert!(auth_core::auth_api::login(&store, "a@x.com", "newpass99", &env).is_ok());
    // The token was single-use.
    let again = auth_core::auth_api::reset_password(&mut store, &body, 300);
    assert_eq!(again.unwrap_err(), AuthError::ResetTokenInvalid);
}

#[test]
fn forgot_password_unknown_email_yields_nothing() {
    let mut store = AuthStore::new();
    let r = auth_core::auth_api::forgot_password(&mut store, "ghost@x.com", 100).unwrap();
    assert!(r.is_none());
}
