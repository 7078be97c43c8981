//! The three persisted entity kinds and their create/update input shapes.

pub mod comment;
pub mod post;
pub mod user;
