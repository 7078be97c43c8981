use blog_core::error::ApiError;
use blog_core::memory::post_store::InMemoryPostRepository;
use blog_core::models::post::{CreatePost, UpdatePost};
use blog_core::services::post_service::PostServiceImpl;

fn service() -> PostServiceImpl<InMemoryPostRepository> {
    PostServiceImpl::new(InMemoryPostRepository::new())
}

fn hi_input() -> CreatePost {
    CreatePost { title: "Hi".to_string(), content: "Body".to_string(), author_id: 9 }
}

#[test]
fn create_post_defaults_to_unpublished() {
    let mut posts = service();
    let created = posts.create_post(hi_input()).unwrap();
    assert_eq!(created.title, "Hi");
    assert_eq!(created.content, "Body");
    assert_eq!(created.author_id, 9);
    assert_eq!(created.published, false);
    assert_eq!(created.created_at, created.updated_at);
}

#[test]
fn create_post_with_uses_the_supplied_stamps() {
    let mut posts = service();
    let created = posts.create_post_with(7, 100, hi_input()).unwrap();
    assert_eq!(created.id, 7);
    assert_eq!(created.created_at, 100);
    assert_eq!(created.updated_at, 100);
}

#[test]
fn create_post_with_a_taken_id_is_a_storage_fault() {
    let mut posts = service();
    posts.create_post_with(7, 100, hi_input()).unwrap();
    let err = posts.create_post_with(7, 200, hi_input()).unwrap_err();
    assert!(matches!(err, ApiError::DatabaseError(_)));
}

#[test]
fn update_with_only_published_preserves_title_and_content() {
    let mut posts = service();
    posts.create_post_with(7, 100, hi_input()).unwrap();
    let updated = posts
        .update_post_with(
            7,
            200,
            UpdatePost { title: None, content: None, published: Some(true) },
        )
        .unwrap();
    assert_eq!(updated.title, "Hi");
    assert_eq!(updated.content, "Body");
    assert_eq!(updated.published, true);
    assert_eq!(updated.created_at, 100);
    assert_eq!(updated.updated_at, 200);
    assert!(updated.updated_at > 100);
}

#[test]
fn update_with_only_title_preserves_the_rest() {
    let mut posts = service();
    posts.create_post_with(7, 100, hi_input()).unwrap();
    let updated = posts
        .update_post_with(
            7,
            200,
            UpdatePost { title: Some("Hello".to_string()), content: None, published: None },
        )
        .unwrap();
    assert_eq!(updated.title, "Hello");
    assert_eq!(updated.content, "Body");
    assert_eq!(updated.published, false);
    assert_eq!(updated.author_id, 9);
}

#[test]
fn get_posts_returns_all_in_insertion_order() {
    let mut posts = service();
    posts.create_post_with(1, 100, hi_input()).unwrap();
    posts
        .create_post_with(
            2,
            110,
            CreatePost { title: "Second".to_string(), content: "More".to_string(), author_id: 9 },
        )
        .unwrap();
    let all = posts.get_posts().unwrap();
    assert_eq!(all.len(), 2);
    assert_eq!(all[0].id, 1);
    assert_eq!(all[1].id, 2);
}

#[test]
fn post_lookup_update_delete_on_missing_id_are_not_found() {
    let mut posts = service();
    posts.create_post_with(1, 100, hi_input()).unwrap();
    assert!(matches!(posts.get_post(99).unwrap_err(), ApiError::NotFound));
    let update_err = posts
        .update_post(99, UpdatePost { title: None, content: None, published: None })
        .unwrap_err();
    assert!(matches!(update_err, ApiError::NotFound));
    assert!(matches!(posts.delete_post(99).unwrap_err(), ApiError::NotFound));
}

#[test]
fn second_delete_of_the_same_post_is_not_found() {
    let mut posts = service();
    posts.create_post_with(1, 100, hi_input()).unwrap();
    posts.delete_post(1).unwrap();
    assert!(matches!(posts.delete_post(1).unwrap_err(), ApiError::NotFound));
}
