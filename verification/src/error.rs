//! The closed error taxonomy shared by repositories and domain services.
//!
//! Storage faults are normalized to `DatabaseError` at a single translation
//! point, so callers above the repository layer never see storage-specific
//! error types.

use vstd::prelude::*;

verus! {

/// Every failure of the domain layer falls under one of these kinds.
#[derive(Debug)]
pub enum ApiError {
    /// A failure originating from the persistence layer, with its detail text.
    DatabaseError(String),
    /// The requested entity id or key does not exist.
    NotFound,
    /// An input failed a shape or format constraint, with its detail text.
    ValidationError(String),
    /// A credential-hashing failure or other unexpected internal fault.
    InternalServerError,
}

#[verifier::external_type_specification]
#[verifier::external_body]
pub struct ExDieselError(diesel::result::Error);

/// Relies on `diesel::result::Error`: `NotFound` is its row-missing variant;
/// any other variant is reported through its display text.
#[verifier::external_body]
fn storage_error_detail(error: diesel::result::Error) -> (r: Option<String>) {
    match error {
        diesel::result::Error::NotFound => None,
        other => Some(format!("{}", other)),
    }
}

impl ApiError {
    /// Normalizes a storage-layer failure into the taxonomy: a missing row
    /// becomes `NotFound`, anything else becomes `DatabaseError`.
    pub fn from_storage(error: diesel::result::Error) -> (r: ApiError)
        ensures
            r is NotFound || r is DatabaseError,
    {
        match storage_error_detail(error) {
            None => ApiError::NotFound,
            Some(detail) => ApiError::DatabaseError(detail),
        }
    }

    /// The HTTP status the transport adapter answers with for this kind.
    pub fn status_code(&self) -> (code: u16)
        ensures
            code == (match self {
                ApiError::DatabaseError(_) => 500u16,
                ApiError::NotFound => 404u16,
                ApiError::ValidationError(_) => 400u16,
                ApiError::InternalServerError => 500u16,
            }),
    {
        match self {
            ApiError::DatabaseError(_) => 500,
            ApiError::NotFound => 404,
            ApiError::ValidationError(_) => 400,
            ApiError::InternalServerError => 500,
        }
    }
}

} // verus!
