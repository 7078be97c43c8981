use blog_core::error::ApiError;
use blog_core::memory::user_store::InMemoryUserRepository;
use blog_core::models::user::{CreateUser, UpdateUser, User};
use blog_core::services::user_service::UserServiceImpl;

fn service() -> UserServiceImpl<InMemoryUserRepository> {
    UserServiceImpl::new(InMemoryUserRepository::new())
}

fn alice_input() -> CreateUser {
    CreateUser {
        username: "alice".to_string(),
        email: "a@example.com".to_string(),
        password: "longenough1".to_string(),
    }
}

#[test]
fn create_user_echoes_fields_and_stamps_equal_timestamps() {
    let mut users = service();
    let created = users.create(alice_input()).unwrap();
    assert_eq!(created.username, "alice");
    assert_eq!(created.email, "a@example.com");
    assert_eq!(created.created_at, created.updated_at);
    assert_ne!(created.password_hash, "longenough1");
    assert!(!created.password_hash.is_empty());
    assert_eq!(created.verify_password("longenough1").unwrap(), true);
    assert_eq!(created.verify_password("wrongpassword").unwrap(), false);
}

#[test]
fn create_issues_fresh_identities() {
    let mut users = service();
    let first = users.create(alice_input()).unwrap();
    let second = users
        .create(CreateUser {
            username: "bob".to_string(),
            email: "b@example.com".to_string(),
            password: "longenough2".to_string(),
        })
        .unwrap();
    assert_ne!(first.id, second.id);
    let found = users.find(first.id).unwrap();
    assert_eq!(found.username, "alice");
}

#[test]
fn create_duplicate_email_is_a_storage_fault() {
    let mut users = service();
    users.create(alice_input()).unwrap();
    let err = users
        .create(CreateUser {
            username: "alias".to_string(),
            email: "a@example.com".to_string(),
            password: "longenough3".to_string(),
        })
        .unwrap_err();
    assert!(matches!(err, ApiError::DatabaseError(_)));
}

#[test]
fn password_round_trip() {
    let user = User::new(
        "alice".to_string(),
        "a@example.com".to_string(),
        "longenough1".to_string(),
    )
    .unwrap();
    assert_eq!(user.verify_password("longenough1").unwrap(), true);
    assert_eq!(user.verify_password("wrongpassword").unwrap(), false);
}

#[test]
fn hashing_salts_each_call_differently() {
    let first = User::new(
        "alice".to_string(),
        "a@example.com".to_string(),
        "longenough1".to_string(),
    )
    .unwrap();
    let second = User::new(
        "alice".to_string(),
        "a@example.com".to_string(),
        "longenough1".to_string(),
    )
    .unwrap();
    assert_ne!(first.password_hash, second.password_hash);
}

#[test]
fn verify_password_on_malformed_hash_is_internal_error() {
    let user = User {
        id: 1,
        username: "alice".to_string(),
        email: "a@example.com".to_string(),
        password_hash: "not a phc hash".to_string(),
        created_at: 0,
        updated_at: 0,
    };
    let err = user.verify_password("longenough1").unwrap_err();
    assert!(matches!(err, ApiError::InternalServerError));
}

#[test]
fn update_password_keeps_profile_and_rotates_credential() {
    let mut user = User::new(
        "alice".to_string(),
        "a@example.com".to_string(),
        "longenough1".to_string(),
    )
    .unwrap();
    let old_hash = user.password_hash.clone();
    user.update_password("evenlonger22".to_string()).unwrap();
    assert_eq!(user.username, "alice");
    assert_eq!(user.email, "a@example.com");
    assert_ne!(user.password_hash, old_hash);
    assert_eq!(user.verify_password("evenlonger22").unwrap(), true);
    assert_eq!(user.verify_password("longenough1").unwrap(), false);
}

#[test]
fn update_password_with_stamps_the_supplied_time() {
    let mut user = User::new(
        "alice".to_string(),
        "a@example.com".to_string(),
        "longenough1".to_string(),
    )
    .unwrap();
    let created_at = user.created_at;
    let later = user.updated_at + 5;
    user.update_password_with("evenlonger22".to_string(), later).unwrap();
    assert_eq!(user.updated_at, later);
    assert_eq!(user.created_at, created_at);
    assert_eq!(user.verify_password("evenlonger22").unwrap(), true);
}

#[test]
fn update_with_only_username_preserves_everything_else() {
    let mut users = service();
    let created = users.create(alice_input()).unwrap();
    let updated = users
        .update_with(
            created.id,
            created.updated_at + 1,
            UpdateUser { username: Some("alicia".to_string()), email: None, password: None },
        )
        .unwrap();
    assert_eq!(updated.username, "alicia");
    assert_eq!(updated.email, created.email);
    assert_eq!(updated.password_hash, created.password_hash);
    assert_eq!(updated.created_at, created.created_at);
    assert!(updated.updated_at > created.updated_at);
    assert_eq!(updated.id, created.id);
}

#[test]
fn update_rehashes_a_supplied_password() {
    let mut users = service();
    let created = users.create(alice_input()).unwrap();
    let updated = users
        .update(
            created.id,
            UpdateUser { username: None, email: None, password: Some("evenlonger22".to_string()) },
        )
        .unwrap();
    assert_ne!(updated.password_hash, created.password_hash);
    assert_eq!(updated.verify_password("evenlonger22").unwrap(), true);
}

#[test]
fn update_to_an_email_another_user_holds_is_a_storage_fault() {
    let mut users = service();
    let alice = users.create(alice_input()).unwrap();
    users
        .create(CreateUser {
            username: "bob".to_string(),
            email: "b@example.com".to_string(),
            password: "longenough2".to_string(),
        })
        .unwrap();
    let err = users
        .update(
            alice.id,
            UpdateUser { username: None, email: Some("b@example.com".to_string()), password: None },
        )
        .unwrap_err();
    assert!(matches!(err, ApiError::DatabaseError(_)));
}

#[test]
fn find_update_delete_on_missing_id_are_not_found() {
    let mut users = service();
    users.create(alice_input()).unwrap();
    let missing: u128 = 424242;
    assert!(matches!(users.find(missing).unwrap_err(), ApiError::NotFound));
    let update_err = users
        .update(missing, UpdateUser { username: None, email: None, password: None })
        .unwrap_err();
    assert!(matches!(update_err, ApiError::NotFound));
    assert!(matches!(users.delete(missing).unwrap_err(), ApiError::NotFound));
}

#[test]
fn second_delete_of_the_same_id_is_not_found() {
    let mut users = service();
    let created = users.create(alice_input()).unwrap();
    users.delete(created.id).unwrap();
    assert!(matches!(users.delete(created.id).unwrap_err(), ApiError::NotFound));
}

#[test]
fn find_by_email_finds_exactly_the_holder() {
    let mut users = service();
    users.create(alice_input()).unwrap();
    let found = users.find_by_email("a@example.com").unwrap();
    assert_eq!(found.username, "alice");
    assert!(matches!(
        users.find_by_email("nobody@example.com").unwrap_err(),
        ApiError::NotFound
    ));
}
