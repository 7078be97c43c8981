//! The end-to-end flow across all three services, over in-memory storage.

use blog_core::dto::post_dto::CreatePostRequest;
use blog_core::dto::user_dto::{CreateUserRequest, UserResponse};
use blog_core::memory::comment_store::InMemoryCommentRepository;
use blog_core::memory::post_store::InMemoryPostRepository;
use blog_core::memory::user_store::InMemoryUserRepository;
use blog_core::models::comment::CreateComment;
use blog_core::models::post::UpdatePost;
use blog_core::models::user::CreateUser;
use blog_core::services::comment_service::CommentServiceImpl;
use blog_core::services::post_service::PostServiceImpl;
use blog_core::services::user_service::UserServiceImpl;

#[test]
fn full_blog_flow() {
    let mut users = UserServiceImpl::new(InMemoryUserRepository::new());
    let mut posts = PostServiceImpl::new(InMemoryPostRepository::new());
    let mut comments = CommentServiceImpl::new(InMemoryCommentRepository::new());

    // A user arrives over the wire, is validated, created, and answered
    // without any credential material.
    let request = CreateUserRequest {
        username: "alice".to_string(),
        email: "a@example.com".to_string(),
        password: "longenough1".to_string(),
    };
    request.validate().unwrap();
    let alice = users.create(CreateUser::from(request)).unwrap();
    let response = UserResponse::from(alice.clone());
    assert_eq!(response.email, "a@example.com");
    assert_eq!(response.username, "alice");
    assert_eq!(users.find(response.id).unwrap().id, alice.id);

    // A post by alice starts unpublished.
    let post_request = CreatePostRequest { title: "Hi".to_string(), content: "Body".to_string() };
    post_request.validate().unwrap();
    let post = posts.create_post(post_request.into_create_post(alice.id)).unwrap();
    assert_eq!(post.published, false);
    assert_eq!(post.author_id, alice.id);

    // Publishing it touches nothing else.
    posts
        .update_post(post.id, UpdatePost { title: None, content: None, published: Some(true) })
        .unwrap();
    let fetched = posts.get_post(post.id).unwrap();
    assert_eq!(fetched.title, "Hi");
    assert_eq!(fetched.content, "Body");
    assert_eq!(fetched.published, true);

    // One comment on the post.
    comments
        .create(CreateComment {
            content: "Nice post".to_string(),
            post_id: post.id,
            author_id: alice.id,
        })
        .unwrap();
    let attached = comments.find_by_post(post.id).unwrap();
    assert_eq!(attached.len(), 1);
    assert_eq!(attached[0].content, "Nice post");

    // Deleting the post does not cascade: the comment row stays, orphaned.
    posts.delete_post(post.id).unwrap();
    let orphaned = comments.find_by_post(post.id).unwrap();
    assert_eq!(orphaned.len(), 1);
    assert_eq!(orphaned[0].content, "Nice post");
}
