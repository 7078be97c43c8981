//! In-memory repository implementations: one vector-backed store per entity
//! kind, each proved to meet its repository contract. They serve as the
//! storage engine wherever a database is not wired in, tests included.

pub mod comment_store;
pub mod post_store;
pub mod user_store;
