//! The values that cross the HTTP boundary.
use vstd::prelude::*;

use crate::errors::{error_text, UserError};

verus! {

/// A request to create a user.
#[derive(Debug, Clone)]
pub struct CreateUser {
    pub email: String,
    pub password: String,
}

/// A request to confirm a user's email with the code the provider sent.
#[derive(Debug, Clone)]
pub struct ConfirmUser {
    pub email: String,
    pub code: String,
}

/// A user as the record store mirrors it.
#[derive(Debug, Clone)]
pub struct User {
    pub email: String,
}

/// The reply to a successful confirmation.
#[derive(Debug, Clone)]
pub struct ConfirmUserResponse {
    pub message: String,
    pub user: String,
}

impl ConfirmUserResponse {
    /// The reply for `email` once its code has been accepted.
    pub fn confirmed(email: String) -> (r: ConfirmUserResponse)
        ensures
            r.message@ == "User confirmed successfully"@,
            r.user@ == email@,
    {
        ConfirmUserResponse { message: String::from_str("User confirmed successfully"), user: email }
    }
}

/// The one status that every failure is reported with.
pub const INTERNAL_SERVER_ERROR: u16 = 500;

/// A failure as the HTTP boundary reports it: one status for every cause,
/// and the error's text.
#[derive(Debug, Clone)]
pub struct ApiError {
    pub status: u16,
    pub message: String,
}

impl ApiError {
    pub fn from_user_error(e: &UserError) -> (r: ApiError)
        ensures
            r.status == INTERNAL_SERVER_ERROR,
            r.message@ == error_text(*e),
    {
        ApiError { status: INTERNAL_SERVER_ERROR, message: e.message() }
    }
}

} // verus!
