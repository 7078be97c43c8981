use blog_core::error::ApiError;
use blog_core::memory::comment_store::InMemoryCommentRepository;
use blog_core::models::comment::{CreateComment, UpdateComment};
use blog_core::services::comment_service::CommentServiceImpl;

fn service() -> CommentServiceImpl<InMemoryCommentRepository> {
    CommentServiceImpl::new(InMemoryCommentRepository::new())
}

fn nice_input(post_id: u128) -> CreateComment {
    CreateComment { content: "Nice post".to_string(), post_id, author_id: 5 }
}

#[test]
fn create_comment_echoes_fields() {
    let mut comments = service();
    let created = comments.create(nice_input(7)).unwrap();
    assert_eq!(created.content, "Nice post");
    assert_eq!(created.post_id, 7);
    assert_eq!(created.author_id, 5);
    assert_eq!(created.created_at, created.updated_at);
}

#[test]
fn find_by_post_returns_exactly_the_attached_comments_in_order() {
    let mut comments = service();
    comments.create_with(1, 100, nice_input(7)).unwrap();
    comments
        .create_with(
            2,
            110,
            CreateComment { content: "Unrelated".to_string(), post_id: 8, author_id: 5 },
        )
        .unwrap();
    comments
        .create_with(
            3,
            120,
            CreateComment { content: "Also here".to_string(), post_id: 7, author_id: 6 },
        )
        .unwrap();
    let for_seven = comments.find_by_post(7).unwrap();
    assert_eq!(for_seven.len(), 2);
    assert_eq!(for_seven[0].id, 1);
    assert_eq!(for_seven[1].id, 3);
    let for_eight = comments.find_by_post(8).unwrap();
    assert_eq!(for_eight.len(), 1);
    assert_eq!(for_eight[0].content, "Unrelated");
    assert_eq!(comments.find_by_post(999).unwrap().len(), 0);
}

#[test]
fn update_with_content_replaces_it_and_keeps_references() {
    let mut comments = service();
    comments.create_with(1, 100, nice_input(7)).unwrap();
    let updated = comments
        .update_with(1, 200, UpdateComment { content: Some("Edited".to_string()) })
        .unwrap();
    assert_eq!(updated.content, "Edited");
    assert_eq!(updated.post_id, 7);
    assert_eq!(updated.author_id, 5);
    assert_eq!(updated.created_at, 100);
    assert_eq!(updated.updated_at, 200);
}

#[test]
fn update_without_content_only_refreshes_the_timestamp() {
    let mut comments = service();
    comments.create_with(1, 100, nice_input(7)).unwrap();
    let updated = comments.update_with(1, 200, UpdateComment { content: None }).unwrap();
    assert_eq!(updated.content, "Nice post");
    assert_eq!(updated.updated_at, 200);
}

#[test]
fn comment_lookup_update_delete_on_missing_id_are_not_found() {
    let mut comments = service();
    comments.create_with(1, 100, nice_input(7)).unwrap();
    assert!(matches!(comments.find(99).unwrap_err(), ApiError::NotFound));
    let update_err = comments.update(99, UpdateComment { content: None }).unwrap_err();
    assert!(matches!(update_err, ApiError::NotFound));
    assert!(matches!(comments.delete(99).unwrap_err(), ApiError::NotFound));
}

#[test]
fn second_delete_of_the_same_comment_is_not_found() {
    let mut comments = service();
    comments.create_with(1, 100, nice_input(7)).unwrap();
    comments.delete(1).unwrap();
    assert!(matches!(comments.delete(1).unwrap_err(), ApiError::NotFound));
}
