use blog_core::dto::comment_dto::{CommentResponse, CreateCommentRequest, UpdateCommentRequest};
use blog_core::dto::post_dto::{PostResponse, UpdatePostRequest};
use blog_core::dto::user_dto::UpdateUserRequest;
use blog_core::models::comment::{Comment, UpdateComment};
use blog_core::models::post::{Post, UpdatePost};
use blog_core::models::user::{NewUser, UpdateUser, User};

#[test]
fn user_response_carries_no_credential_material() {
    let user = User {
        id: 3,
        username: "alice".to_string(),
        email: "a@example.com".to_string(),
        password_hash: "hash".to_string(),
        created_at: 100,
        updated_at: 200,
    };
    let response = blog_core::dto::user_dto::UserResponse::from(user);
    let as_text = format!("{:?}", response);
    assert!(!as_text.contains("hash"));
    assert_eq!(response.id, 3);
    assert_eq!(response.created_at, 100);
    assert_eq!(response.updated_at, 200);
}

#[test]
fn new_user_keeps_the_insertable_columns() {
    let user = User {
        id: 3,
        username: "alice".to_string(),
        email: "a@example.com".to_string(),
        password_hash: "hash".to_string(),
        created_at: 100,
        updated_at: 200,
    };
    let row = NewUser::from(user);
    assert_eq!(row.username, "alice");
    assert_eq!(row.email, "a@example.com");
    assert_eq!(row.password_hash, "hash");
}

#[test]
fn post_response_echoes_every_field() {
    let post = Post {
        id: 4,
        title: "Hi".to_string(),
        content: "Body".to_string(),
        author_id: 3,
        published: true,
        created_at: 100,
        updated_at: 200,
    };
    let response = PostResponse::from(post);
    assert_eq!(response.id, 4);
    assert_eq!(response.title, "Hi");
    assert_eq!(response.content, "Body");
    assert_eq!(response.author_id, 3);
    assert_eq!(response.published, true);
}

#[test]
fn comment_response_echoes_every_field() {
    let comment = Comment {
        id: 5,
        content: "Nice".to_string(),
        post_id: 4,
        author_id: 3,
        created_at: 100,
        updated_at: 200,
    };
    let response = CommentResponse::from(comment);
    assert_eq!(response.id, 5);
    assert_eq!(response.content, "Nice");
    assert_eq!(response.post_id, 4);
    assert_eq!(response.author_id, 3);
}

#[test]
fn update_requests_convert_field_for_field() {
    let user_update = UpdateUser::from(UpdateUserRequest {
        username: Some("alicia".to_string()),
        email: None,
        password: None,
    });
    assert_eq!(user_update.username.as_deref(), Some("alicia"));
    assert!(user_update.email.is_none());
    let post_update = UpdatePost::from(UpdatePostRequest {
        title: None,
        content: None,
        published: Some(true),
    });
    assert_eq!(post_update.published, Some(true));
    let comment_update = UpdateComment::from(UpdateCommentRequest {
        content: Some("Edited".to_string()),
    });
    assert_eq!(comment_update.content.as_deref(), Some("Edited"));
}

#[test]
fn requests_pair_with_a_resolved_author() {
    let create_comment = CreateCommentRequest { content: "Nice".to_string(), post_id: 4 }
        .into_create_comment(3);
    assert_eq!(create_comment.author_id, 3);
    assert_eq!(create_comment.post_id, 4);
    let create_post = blog_core::dto::post_dto::CreatePostRequest {
        title: "Hi".to_string(),
        content: "Body".to_string(),
    }
    .into_create_post(3);
    assert_eq!(create_post.author_id, 3);
    assert_eq!(create_post.title, "Hi");
}
