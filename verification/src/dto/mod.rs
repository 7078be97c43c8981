//! Wire-facing request and response shapes, with the validation the
//! transport performs before a domain service is invoked.

pub mod comment_dto;
pub mod post_dto;
pub mod user_dto;
