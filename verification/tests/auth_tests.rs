use carteira::auth::{default_admin_account, is_admin, UnauthenticatedUser};
use carteira::error::AppError;
use carteira::models::UserRecord;

fn store(id: i64, user: carteira::models::NewUser) -> UserRecord {
    UserRecord { id, username: user.username, password_hash: user.password_hash }
}

#[test]
fn test_unregistered_user_cannot_login() {
    let credentials =
        UnauthenticatedUser::new("nonexistent".to_string(), "password123".to_string());
    let result = credentials.authenticate(None);
    assert!(matches!(result, Err(AppError::UserDoesNotExist)));
}

#[test]
fn test_register_and_login_flow() {
    let registering = UnauthenticatedUser::new("newuser".to_string(), "password123".to_string());
    let response = registering.register(&None);
    assert!(response.is_ok());
    let stored = store(1, response.unwrap());
    assert_eq!(stored.username, "newuser");
    assert_ne!(stored.password_hash, "password123");

    let logging_in = UnauthenticatedUser::new("newuser".to_string(), "password123".to_string());
    let login_res = logging_in.authenticate(Some(stored.clone()));
    assert!(login_res.is_ok());
    let user = login_res.unwrap();
    assert_eq!(user.id, 1);
    assert_eq!(user.username, "newuser");
}

#[test]
fn registration_stores_a_hash_not_the_password() {
    let registering = UnauthenticatedUser::new("alice".to_string(), "s3cret".to_string());
    let user = registering.register(&None).expect("free name");
    assert_eq!(user.username, "alice");
    assert_ne!(user.password_hash, "s3cret");
    assert!(user.password_hash.starts_with("$argon2id$v=19$m=19456,t=2,p=1$"));
    assert!(user.password_hash.len() > "$argon2id$v=19$m=19456,t=2,p=1$".len());
}

#[test]
fn wrong_password_is_invalid_credentials() {
    let registering = UnauthenticatedUser::new("bob".to_string(), "right".to_string());
    let stored = store(7, registering.register(&None).expect("free name"));
    let logging_in = UnauthenticatedUser::new("bob".to_string(), "wrong".to_string());
    let result = logging_in.authenticate(Some(stored));
    assert!(matches!(result, Err(AppError::InvalidCredentials)));
}

#[test]
fn malformed_stored_hash_is_invalid_credentials() {
    let stored = UserRecord {
        id: 3,
        username: "carol".to_string(),
        password_hash: "hashed_password".to_string(),
    };
    let logging_in = UnauthenticatedUser::new("carol".to_string(), "hashed_password".to_string());
    assert!(matches!(logging_in.authenticate(Some(stored)), Err(AppError::InvalidCredentials)));
}

#[test]
fn taken_username_is_refused() {
    let existing = UserRecord {
        id: 1,
        username: "John".to_string(),
        password_hash: "hashed_password".to_string(),
    };
    let registering = UnauthenticatedUser::new("John".to_string(), "other".to_string());
    assert!(matches!(registering.register(&Some(existing)), Err(AppError::UsernameTaken)));
}

#[test]
fn default_admin_is_created_when_missing_and_logs_in() {
    let created = default_admin_account(&None).expect("admin is missing");
    assert_eq!(created.username, "admin");
    assert_ne!(created.password_hash, "admin");
    assert!(created.password_hash.starts_with("$argon2id$v=19$"));
    let stored = store(1, created);
    let logging_in = UnauthenticatedUser::new("admin".to_string(), "admin".to_string());
    let user = logging_in.authenticate(Some(stored)).expect("admin/admin logs in");
    assert_eq!(user.username, "admin");
}

#[test]
fn default_admin_is_not_created_twice() {
    let existing = UserRecord {
        id: 1,
        username: "admin".to_string(),
        password_hash: "hash".to_string(),
    };
    assert!(default_admin_account(&Some(existing)).is_none());
}

#[test]
fn only_admin_is_admin() {
    assert!(is_admin("admin"));
    assert!(!is_admin("Admin"));
    assert!(!is_admin("admin "));
    assert!(!is_admin("John"));
    assert!(!is_admin(""));
}

#[test]
fn credentials_keep_their_name() {
    let credentials = UnauthenticatedUser::new("Marie".to_string(), "pw".to_string());
    assert_eq!(credentials.username(), "Marie");
}
