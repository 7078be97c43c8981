//! Domain services, one per entity kind: identity and timestamp assignment
//! on create, field-level merge on update, credential hashing for users, and
//! delegation to a repository for persistence.

pub mod comment_service;
pub mod post_service;
pub mod user_service;
