use blog_core::dto::comment_dto::{CreateCommentRequest, UpdateCommentRequest};
use blog_core::dto::post_dto::{CreatePostRequest, UpdatePostRequest};
use blog_core::dto::user_dto::{CreateUserRequest, UpdateUserRequest};
use blog_core::error::ApiError;

fn user_request(username: &str, email: &str, password: &str) -> CreateUserRequest {
    CreateUserRequest {
        username: username.to_string(),
        email: email.to_string(),
        password: password.to_string(),
    }
}

#[test]
fn username_bounds_are_3_to_50_characters() {
    assert!(user_request("ab", "a@example.com", "longenough1").validate().is_err());
    assert!(user_request("abc", "a@example.com", "longenough1").validate().is_ok());
    let fifty = "a".repeat(50);
    assert!(user_request(&fifty, "a@example.com", "longenough1").validate().is_ok());
    let fifty_one = "a".repeat(51);
    assert!(user_request(&fifty_one, "a@example.com", "longenough1").validate().is_err());
}

#[test]
fn email_syntax_is_checked() {
    assert!(user_request("alice", "a@example.com", "longenough1").validate().is_ok());
    assert!(user_request("alice", "not-an-email", "longenough1").validate().is_err());
    assert!(user_request("alice", "", "longenough1").validate().is_err());
    assert!(user_request("alice", "@example.com", "longenough1").validate().is_err());
}

#[test]
fn password_needs_at_least_8_characters() {
    assert!(user_request("alice", "a@example.com", "short12").validate().is_err());
    assert!(user_request("alice", "a@example.com", "exactly8").validate().is_ok());
}

#[test]
fn validation_failures_are_validation_errors() {
    let err = user_request("ab", "a@example.com", "longenough1").validate().unwrap_err();
    assert!(matches!(err, ApiError::ValidationError(_)));
    assert_eq!(err.status_code(), 400);
}

#[test]
fn update_user_request_checks_only_present_fields() {
    let empty = UpdateUserRequest { username: None, email: None, password: None };
    assert!(empty.validate().is_ok());
    let bad_name = UpdateUserRequest {
        username: Some("ab".to_string()),
        email: None,
        password: None,
    };
    assert!(bad_name.validate().is_err());
    let good = UpdateUserRequest {
        username: Some("alicia".to_string()),
        email: Some("a2@example.com".to_string()),
        password: Some("longenough2".to_string()),
    };
    assert!(good.validate().is_ok());
    let bad_password = UpdateUserRequest {
        username: None,
        email: None,
        password: Some("short".to_string()),
    };
    assert!(bad_password.validate().is_err());
}

#[test]
fn title_bounds_are_1_to_100_characters() {
    let make = |title: &str| CreatePostRequest {
        title: title.to_string(),
        content: "Body".to_string(),
    };
    assert!(make("").validate().is_err());
    assert!(make("H").validate().is_ok());
    let hundred = "t".repeat(100);
    assert!(make(&hundred).validate().is_ok());
    let hundred_one = "t".repeat(101);
    assert!(make(&hundred_one).validate().is_err());
}

#[test]
fn post_content_must_not_be_empty() {
    let empty = CreatePostRequest { title: "Hi".to_string(), content: "".to_string() };
    assert!(empty.validate().is_err());
    let update_empty = UpdatePostRequest {
        title: None,
        content: Some("".to_string()),
        published: None,
    };
    assert!(update_empty.validate().is_err());
    let update_absent = UpdatePostRequest { title: None, content: None, published: Some(true) };
    assert!(update_absent.validate().is_ok());
}

#[test]
fn comment_content_must_not_be_empty() {
    let empty = CreateCommentRequest { content: "".to_string(), post_id: 7 };
    assert!(empty.validate().is_err());
    let fine = CreateCommentRequest { content: "Nice".to_string(), post_id: 7 };
    assert!(fine.validate().is_ok());
    let update_empty = UpdateCommentRequest { content: Some("".to_string()) };
    assert!(update_empty.validate().is_err());
    let update_absent = UpdateCommentRequest { content: None };
    assert!(update_absent.validate().is_ok());
}

#[test]
fn length_rules_count_characters_not_bytes() {
    let two_chars = "\u{e9}\u{e9}";
    assert_eq!(two_chars.len(), 4);
    assert!(user_request(two_chars, "a@example.com", "longenough1").validate().is_err());
    let three_chars = "\u{e9}\u{e9}\u{e9}";
    assert!(user_request(three_chars, "a@example.com", "longenough1").validate().is_ok());
}
