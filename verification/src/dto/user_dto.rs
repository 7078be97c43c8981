//! Wire-facing user shapes: responses that never carry the credential hash,
//! and requests validated before they reach the domain service.

use vstd::prelude::*;
use vstd::string::StringExecFns;

use crate::error::ApiError;
use crate::models::user::{CreateUser, UpdateUser, User};
use crate::validation::{
    char_count, email_accepted, email_is_valid, valid_password, valid_username,
};

verus! {

/// What a user looks like on the wire: every field of the entity except the
/// credential hash, which never leaves the domain layer.
#[derive(Debug)]
pub struct UserResponse {
    pub id: u128,
    pub username: String,
    pub email: String,
    pub created_at: i64,
    pub updated_at: i64,
}

impl From<User> for UserResponse {
    fn from(user: User) -> (r: UserResponse) {
        UserResponse {
            id: user.id,
            username: user.username,
            email: user.email,
            created_at: user.created_at,
            updated_at: user.updated_at,
        }
    }
}

impl vstd::std_specs::convert::FromSpecImpl<User> for UserResponse {
    open spec fn obeys_from_spec() -> bool {
        true
    }

    open spec fn from_spec(user: User) -> UserResponse {
        UserResponse {
            id: user.id,
            username: user.username,
            email: user.email,
            created_at: user.created_at,
            updated_at: user.updated_at,
        }
    }
}

/// A user-creation request as it arrives from the transport.
#[derive(Debug)]
pub struct CreateUserRequest {
    pub username: String,
    pub email: String,
    pub password: String,
}

impl CreateUserRequest {
    /// Accepts exactly the requests whose username is 3 to 50 characters,
    /// whose email passes the syntax check, and whose password is at least 8
    /// characters; anything else is a validation error.
    pub fn validate(&self) -> (r: Result<(), ApiError>)
        ensures
            r is Ok <==> valid_username(self.username@) && email_accepted(self.email@)
                && valid_password(self.password@),
            (r matches Err(e) ==> e is ValidationError),
    {
        let username_chars = char_count(&self.username);
        if username_chars < 3 || username_chars > 50 {
            return Err(
                ApiError::ValidationError(String::from_str("username must be 3 to 50 characters")),
            );
        }
        if !email_is_valid(&self.email) {
            return Err(ApiError::ValidationError(String::from_str("email is not a valid address")));
        }
        if char_count(&self.password) < 8 {
            return Err(
                ApiError::ValidationError(
                    String::from_str("password must be at least 8 characters"),
                ),
            );
        }
        Ok(())
    }
}

impl From<CreateUserRequest> for CreateUser {
    fn from(request: CreateUserRequest) -> (r: CreateUser) {
        CreateUser {
            username: request.username,
            email: request.email,
            password: request.password,
        }
    }
}

impl vstd::std_specs::convert::FromSpecImpl<CreateUserRequest> for CreateUser {
    open spec fn obeys_from_spec() -> bool {
        true
    }

    open spec fn from_spec(request: CreateUserRequest) -> CreateUser {
        CreateUser {
            username: request.username,
            email: request.email,
            password: request.password,
        }
    }
}

/// A partial user-update request as it arrives from the transport.
#[derive(Debug)]
pub struct UpdateUserRequest {
    pub username: Option<String>,
    pub email: Option<String>,
    pub password: Option<String>,
}

impl UpdateUserRequest {
    /// Accepts exactly the requests whose present fields each pass the rule
    /// the corresponding creation field must pass; absent fields pass.
    pub fn validate(&self) -> (r: Result<(), ApiError>)
        ensures
            r is Ok <==> (match self.username {
                Some(name) => valid_username(name@),
                None => true,
            } && match self.email {
                Some(email) => email_accepted(email@),
                None => true,
            } && match self.password {
                Some(password) => valid_password(password@),
                None => true,
            }),
            (r matches Err(e) ==> e is ValidationError),
    {
        if let Some(username) = &self.username {
            let username_chars = char_count(username);
            if username_chars < 3 || username_chars > 50 {
                return Err(
                    ApiError::ValidationError(
                        String::from_str("username must be 3 to 50 characters"),
                    ),
                );
            }
        }
        if let Some(email) = &self.email {
            if !email_is_valid(email) {
                return Err(
                    ApiError::ValidationError(String::from_str("email is not a valid address")),
                );
            }
        }
        if let Some(password) = &self.password {
            if char_count(password) < 8 {
                return Err(
                    ApiError::ValidationError(
                        String::from_str("password must be at least 8 characters"),
                    ),
                );
            }
        }
        Ok(())
    }
}

impl From<UpdateUserRequest> for UpdateUser {
    fn from(request: UpdateUserRequest) -> (r: UpdateUser) {
        UpdateUser {
            username: request.username,
            email: request.email,
            password: request.password,
        }
    }
}

impl vstd::std_specs::convert::FromSpecImpl<UpdateUserRequest> for UpdateUser {
    open spec fn obeys_from_spec() -> bool {
        true
    }

    open spec fn from_spec(request: UpdateUserRequest) -> UpdateUser {
        UpdateUser {
            username: request.username,
            email: request.email,
            password: request.password,
        }
    }
}

/// A user response together with an authentication token, for the (out of
/// scope) authentication flow to fill in.
#[derive(Debug)]
pub struct AuthUserResponse {
    pub user: UserResponse,
    pub token: String,
}

} // verus!
