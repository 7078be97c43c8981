//! Domain core of a blogging backend: entities (users, posts, comments),
//! validation, credential hashing, repository contracts with an in-memory
//! implementation, and the domain services that tie them together.

pub mod clock;
pub mod credentials;
pub mod dto;
pub mod error;
pub mod identity;
pub mod memory;
pub mod models;
pub mod repository;
pub mod services;
pub mod validation;
