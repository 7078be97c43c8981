use blog_core::error::ApiError;

#[test]
fn status_codes_follow_the_taxonomy() {
    assert_eq!(ApiError::NotFound.status_code(), 404);
    assert_eq!(ApiError::ValidationError("bad".to_string()).status_code(), 400);
    assert_eq!(ApiError::DatabaseError("down".to_string()).status_code(), 500);
    assert_eq!(ApiError::InternalServerError.status_code(), 500);
}

#[test]
fn storage_not_found_maps_to_not_found() {
    let mapped = ApiError::from_storage(diesel::result::Error::NotFound);
    assert!(matches!(mapped, ApiError::NotFound));
}

#[test]
fn other_storage_failures_map_to_database_error() {
    let mapped = ApiError::from_storage(diesel::result::Error::RollbackTransaction);
    assert!(matches!(mapped, ApiError::DatabaseError(_)));
    let broken = ApiError::from_storage(diesel::result::Error::BrokenTransactionManager);
    assert!(matches!(broken, ApiError::DatabaseError(_)));
}
