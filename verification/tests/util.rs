use auth_core::errors::AuthError;
use auth_core::homepage::default_hero;
use auth_core::password::{hash_password, verify_password};
use auth_core::text::{normalize_email, email_local_part, parse_decimal, str_eq, trim_str};
use auth_core::token_hash::{create_random_token, hash_token, random_code, random_token};

#[test]
fn password_round_trip_and_rejection() {
    // verify(p, hash(p)) holds; a different password is rejected.
    let digest = hash_password("secret123").unwrap();
    assert!(verify_password("secret123", &digest));
    assert!(!verify_password("secret124", &digest));
    assert!(!verify_password("", &digest));
    // The digest is not the password handed back.
    assert_ne!(digest, "secret123");
    // A malformed digest is a plain non-match, not an error.
    assert!(!verify_password("secret123", "not-a-digest"));
}

#[test]
fn two_hashes_of_same_password_both_verify() {
    let d1 = hash_password("secret123").unwrap();
    let d2 = hash_password("secret123").unwrap();
    // Fresh salts make the digests differ, yet both accept the password.
    assert_ne!(d1, d2);
    assert!(verify_password("secret123", &d1));
    assert!(verify_password("secret123", &d2));
}

#[test]
fn email_normalization_trims_and_lowercases() {
    assert_eq!(normalize_email("  Alice@Example.COM "), "alice@example.com");
    assert_eq!(normalize_email("a@x.com"), "a@x.com");
    assert_eq!(normalize_email("   "), "");
    assert_eq!(email_local_part("alice@example.com"), "alice");
    assert_eq!(email_local_part("no-at-sign"), "no-at-sign");
    assert_eq!(trim_str("\t a b \r\n"), "a b");
    assert!(str_eq("same", "same"));
    assert!(!str_eq("same", "samf"));
}

#[test]
fn decimal_parser_exact_values() {
    assert_eq!(parse_decimal("0"), Some(0));
    assert_eq!(parse_decimal("604800"), Some(604800));
    assert_eq!(parse_decimal(""), None);
    assert_eq!(parse_decimal("12a"), None);
    assert_eq!(parse_decimal("-3"), None);
    assert_eq!(parse_decimal("99999999999999999999999999"), None);
}

#[test]
fn token_digest_matches_known_vector() {
    // SHA-256("abc"), hex-printed.
    assert_eq!(
        hash_token("abc"),
        "ba7816bf8f01cfea414140de5dae2223b00361a396177a9cb410ff61f20015ad"
    );
    assert_eq!(hash_token("abc"), hash_token("abc"));
    assert_ne!(hash_token("abc"), hash_token("abd"));
    // The digest is not the input handed back.
    assert_ne!(hash_token("abc"), "abc");
}

#[test]
fn random_artifacts_have_stated_shape() {
    let t = create_random_token();
    assert_eq!(t.len(), 64);
    assert!(t.chars().all(|c| c.is_ascii_hexdigit()));
    let a = random_token();
    assert_eq!(a.len(), 32);
    assert!(a.chars().all(|c| c.is_ascii_alphanumeric()));
    let c = random_code();
    assert_eq!(c.len(), 6);
    let v: u32 = c.parse().unwrap();
    assert!((100_000..999_999).contains(&v));
}

#[test]
fn error_statuses_and_codes() {
    assert_eq!(AuthError::InvalidCredentials.status(), 401);
    assert_eq!(AuthError::EmailAlreadyExists.status(), 409);
    assert_eq!(AuthError::UsernameAlreadyExists.status(), 409);
    assert_eq!(AuthError::Forbidden.status(), 403);
    assert_eq!(AuthError::UserNotFound.status(), 404);
    assert_eq!(AuthError::Internal.status(), 500);
    // Token failures collapse to one status, distinguished only by the
    // internal code.
    assert_eq!(AuthError::TokenExpired.status(), 401);
    assert_eq!(AuthError::TokenInvalid.status(), 401);
    assert_eq!(AuthError::TokenExpired.code(), "JWT_EXPIRED");
    assert_eq!(AuthError::TokenInvalid.code(), "JWT_INVALID");
    assert_eq!(AuthError::Forbidden.code(), "FORBIDDEN");
    assert_eq!(AuthError::EmailAlreadyExists.code(), "EMAIL_EXISTS");
}

#[test]
fn origins_split_trims_and_drops_empties() {
    let v = auth_core::config::parse_origins(" http://a.example , ,http://b.example,, ");
    assert_eq!(v, vec!["http://a.example".to_string(), "http://b.example".to_string()]);
    assert!(auth_core::config::parse_origins("").is_empty());
    assert!(auth_core::config::parse_origins(" , ,, ").is_empty());
    assert_eq!(auth_core::config::parse_origins("http://one.example"),
        vec!["http://one.example".to_string()]);
}

#[test]
fn default_hero_content() {
    let hero = default_hero();
    assert_eq!(hero.title, "Welcome");
    assert_eq!(hero.subtitle, "Pure API running");
    assert_eq!(hero.cta_text, "Get Started");
    assert_eq!(hero.cta_link, "/");
}
