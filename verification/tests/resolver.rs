use auth_core::errors::AuthError;
use auth_core::internal_api::{
    create_user_email, find_user, set_oauth_user, set_username_password, update_user, list_users,
    CreateUserEmailBody, FindUserBody, SetOAuthUserBody, SetUsernamePasswordBody, UpdateUserBody,
};
use auth_core::store::AuthStore;
use auth_core::users_api::{update_role, update_me, get_by_id, UpdateMeBody};

fn empty_find_body() -> FindUserBody {
    FindUserBody { email: None, id: None, provider: None, oauth_id: None }
}

#[test]
fn placeholder_user_gets_local_part_username() {
    let mut store = AuthStore::new();
    let u = create_user_email(
        &mut store,
        &CreateUserEmailBody { email: "Alice@X.com".to_string() },
        100,
    )
    .unwrap();
    assert_eq!(u.id, 1);
    assert_eq!(u.email, "alice@x.com");
    assert_eq!(u.username.as_deref(), Some("alice"));
    assert_eq!(u.role, "user");
    assert!(!u.is_email_verified);
    assert!(u.password_hash.is_none());
}

#[test]
fn find_user_by_each_key() {
    let mut store = AuthStore::new();
    create_user_email(&mut store, &CreateUserEmailBody { email: "a@x.com".to_string() }, 100)
        .unwrap();
    set_oauth_user(
        &mut store,
        &SetOAuthUserBody {
            email: "a@x.com".to_string(),
            provider: "google".to_string(),
            oauth_id: "g-77".to_string(),
            picture_url: None,
            name: None,
        },
        200,
    )
    .unwrap();
    let by_email = find_user(
        &store,
        &FindUserBody { email: Some("A@x.com ".to_string()), ..empty_find_body() },
    )
    .unwrap();
    assert_eq!(by_email.id, 1);
    let by_id = find_user(&store, &FindUserBody { id: Some(1), ..empty_find_body() }).unwrap();
    assert_eq!(by_id.email, "a@x.com");
    let by_pair = find_user(
        &store,
        &FindUserBody {
            provider: Some("google".to_string()),
            oauth_id: Some("g-77".to_string()),
            ..empty_find_body()
        },
    )
    .unwrap();
    assert_eq!(by_pair.id, 1);
    assert_eq!(
        find_user(&store, &empty_find_body()).unwrap_err(),
        AuthError::MissingCriteria
    );
    assert_eq!(
        find_user(&store, &FindUserBody { id: Some(99), ..empty_find_body() }).unwrap_err(),
        AuthError::UserNotFound
    );
}

#[test]
fn oauth_link_never_overwrites_username() {
    // A user already named "alice" keeps that name when the provider
    // supplies "bob".
    let mut store = AuthStore::new();
    create_user_email(&mut store, &CreateUserEmailBody { email: "alice@x.com".to_string() }, 100)
        .unwrap();
    let linked = set_oauth_user(
        &mut store,
        &SetOAuthUserBody {
            email: "alice@x.com".to_string(),
            provider: "google".to_string(),
            oauth_id: "g-1".to_string(),
            picture_url: Some("http://pic/p.png".to_string()),
            name: Some("bob".to_string()),
        },
        200,
    )
    .unwrap();
    assert_eq!(linked.username.as_deref(), Some("alice"));
    // The email became verified: the provider vouches for it.
    assert!(linked.is_email_verified);
    // The picture only filled a gap.
    assert_eq!(linked.profile_picture_url.as_deref(), Some("http://pic/p.png"));
}

#[test]
fn oauth_link_picture_fills_gap_only() {
    let mut store = AuthStore::new();
    create_user_email(&mut store, &CreateUserEmailBody { email: "a@x.com".to_string() }, 100)
        .unwrap();
    update_user(
        &mut store,
        &UpdateUserBody {
            id: 1,
            username: None,
            profile_picture_url: Some("http://mine.png".to_string()),
        },
        150,
    )
    .unwrap();
    let linked = set_oauth_user(
        &mut store,
        &SetOAuthUserBody {
            email: "a@x.com".to_string(),
            provider: "google".to_string(),
            oauth_id: "g-2".to_string(),
            picture_url: Some("http://provider.png".to_string()),
            name: None,
        },
        200,
    )
    .unwrap();
    assert_eq!(linked.profile_picture_url.as_deref(), Some("http://mine.png"));
}

#[test]
fn oauth_fresh_user_is_created_verified() {
    let mut store = AuthStore::new();
    let u = set_oauth_user(
        &mut store,
        &SetOAuthUserBody {
            email: "new@x.com".to_string(),
            provider: "google".to_string(),
            oauth_id: "g-9".to_string(),
            picture_url: None,
            name: Some("newbie".to_string()),
        },
        100,
    )
    .unwrap();
    assert_eq!(u.username.as_deref(), Some("newbie"));
    assert!(u.is_email_verified);
    assert_eq!(u.oauth_provider.as_deref(), Some("google"));
}

#[test]
fn oauth_repeat_link_matches_by_pair() {
    let mut store = AuthStore::new();
    let first = set_oauth_user(
        &mut store,
        &SetOAuthUserBody {
            email: "new@x.com".to_string(),
            provider: "google".to_string(),
            oauth_id: "g-9".to_string(),
            picture_url: None,
            name: None,
        },
        100,
    )
    .unwrap();
    let second = set_oauth_user(
        &mut store,
        &SetOAuthUserBody {
            email: "new@x.com".to_string(),
            provider: "google".to_string(),
            oauth_id: "g-9".to_string(),
            picture_url: None,
            name: None,
        },
        200,
    )
    .unwrap();
    assert_eq!(first.id, second.id);
    assert_eq!(list_users(&store).len(), 1);
}

#[test]
fn username_uniqueness_is_enforced() {
    let mut store = AuthStore::new();
    create_user_email(&mut store, &CreateUserEmailBody { email: "alice@x.com".to_string() }, 100)
        .unwrap();
    create_user_email(&mut store, &CreateUserEmailBody { email: "bob@y.com".to_string() }, 110)
        .unwrap();
    let r = update_me(
        &mut store,
        2,
        &UpdateMeBody { username: Some("alice".to_string()), profile_picture_url: None },
        200,
    );
    assert_eq!(r.unwrap_err(), AuthError::UsernameAlreadyExists);
    // Setting one's own current name is not a conflict.
    assert!(update_me(
        &mut store,
        2,
        &UpdateMeBody { username: Some("bob".to_string()), profile_picture_url: None },
        210,
    )
    .is_ok());
}

#[test]
fn set_username_password_requires_verified() {
    let mut store = AuthStore::new();
    create_user_email(&mut store, &CreateUserEmailBody { email: "a@x.com".to_string() }, 100)
        .unwrap();
    let body = SetUsernamePasswordBody {
        email: "a@x.com".to_string(),
        username: "ada".to_string(),
        password: "secret123".to_string(),
    };
    assert_eq!(set_username_password(&mut store, &body, 200).unwrap_err(), AuthError::NotVerified);
}

#[test]
fn update_role_accepts_only_known_roles() {
    let mut store = AuthStore::new();
    create_user_email(&mut store, &CreateUserEmailBody { email: "a@x.com".to_string() }, 100)
        .unwrap();
    assert_eq!(
        update_role(&mut store, 1, "root".to_string(), 200).unwrap_err(),
        AuthError::InvalidRole
    );
    let row = update_role(&mut store, 1, "admin".to_string(), 200).unwrap();
    assert_eq!(row.role, "admin");
    assert_eq!(
        update_role(&mut store, 99, "admin".to_string(), 200).unwrap_err(),
        AuthError::UserNotFound
    );
}

#[test]
fn partial_update_keeps_omitted_fields() {
    let mut store = AuthStore::new();
    create_user_email(&mut store, &CreateUserEmailBody { email: "a@x.com".to_string() }, 100)
        .unwrap();
    update_me(
        &mut store,
        1,
        &UpdateMeBody {
            username: Some("ada".to_string()),
            profile_picture_url: Some("http://p1.png".to_string()),
        },
        200,
    )
    .unwrap();
    let after = update_me(
        &mut store,
        1,
        &UpdateMeBody { username: None, profile_picture_url: None },
        300,
    )
    .unwrap();
    assert_eq!(after.username.as_deref(), Some("ada"));
    assert_eq!(after.profile_picture_url.as_deref(), Some("http://p1.png"));
    assert_eq!(get_by_id(&store, 99).unwrap_err(), AuthError::UserNotFound);
}

#[test]
fn list_users_is_newest_first() {
    let mut store = AuthStore::new();
    for email in ["a@x.com", "b@x.com", "c@x.com"] {
        create_user_email(&mut store, &CreateUserEmailBody { email: email.to_string() }, 100)
            .unwrap();
    }
    let rows = list_users(&store);
    assert_eq!(rows.len(), 3);
    assert_eq!(rows[0].id, 3);
    assert_eq!(rows[1].id, 2);
    assert_eq!(rows[2].id, 1);
    let admin_rows = auth_core::users_api::list_users(&store);
    assert_eq!(admin_rows[0].id, 3);
    assert_eq!(admin_rows[2].email, "a@x.com");
}
