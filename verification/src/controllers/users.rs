//! The answers of the user-management endpoints, given what the store said.

use vstd::prelude::*;
use crate::models::user::ListUser;
use crate::utils::error_handlers::MappedErrors;
use crate::utils::errors::ControllerError;
use crate::utils::status::{CREATED, INTERNAL_SERVER_ERROR, NOT_FOUND, NO_CONTENT, OK};

verus! {

/// The body of a user listing.
#[derive(Debug, Clone, PartialEq, Eq)]
pub struct UsersListResponse {
    pub users: Vec<ListUser>,
}

/// Whether `e` reports the store's failure `err` as an internal error.
pub open spec fn store_failure(err: MappedErrors, e: ControllerError) -> bool {
    e.says(err.text(), INTERNAL_SERVER_ERROR)
}

/// Whether `e` reports the store's failure `err`, a missing row as 404 and
/// anything else as an internal error.
pub open spec fn lookup_failure(err: MappedErrors, e: ControllerError) -> bool {
    e.says(
        err.text(),
        match err {
            MappedErrors::NotFound => NOT_FOUND,
            MappedErrors::InternalServerError => INTERNAL_SERVER_ERROR,
        },
    )
}

/// Reports a failure of the store as an internal error that carries the
/// failure's text.
pub fn store_error(err: MappedErrors) -> (e: ControllerError)
    ensures
        store_failure(err, e),
{
    ControllerError::new(err.message(), INTERNAL_SERVER_ERROR)
}

/// Answers a write: `done` where the store took it, else the store's failure.
pub fn write_answer<T>(stored: Result<T, MappedErrors>, done: u16) -> (r: Result<u16, ControllerError>)
    ensures
        match stored {
            Ok(_) => r == Ok::<u16, ControllerError>(done),
            Err(err) => r matches Err(e) && store_failure(err, e),
        },
{
    match stored {
        Ok(_) => Ok(done),
        Err(err) => Err(store_error(err)),
    }
}

/// Answers the creation of a user: 201, or the store's failure.
pub fn create_user(stored: Result<usize, MappedErrors>) -> (r: Result<u16, ControllerError>)
    ensures
        match stored {
            Ok(_) => r == Ok::<u16, ControllerError>(CREATED),
            Err(err) => r matches Err(e) && store_failure(err, e),
        },
{
    write_answer(stored, CREATED)
}

/// Answers the lookup of a user: the user, 404 where there is none, or the
/// store's failure.
pub fn find_user(found: Result<ListUser, MappedErrors>) -> (r: Result<ListUser, ControllerError>)
    ensures
        match found {
            Ok(user) => r == Ok::<ListUser, ControllerError>(user),
            Err(err) => r matches Err(e) && lookup_failure(err, e),
        },
{
    match found {
        Ok(user) => Ok(user),
        Err(err) => {
            let status_code = match err {
                MappedErrors::NotFound => NOT_FOUND,
                _ => INTERNAL_SERVER_ERROR,
            };
            Err(ControllerError::new(err.message(), status_code))
        },
    }
}

/// Answers the listing of all users.
pub fn list_all(found: Result<Vec<ListUser>, MappedErrors>) -> (r: Result<
    UsersListResponse,
    ControllerError,
>)
    ensures
        match found {
            Ok(users) => r matches Ok(body) && body.users == users,
            Err(err) => r matches Err(e) && store_failure(err, e),
        },
{
    match found {
        Ok(users) => Ok(UsersListResponse { users }),
        Err(err) => Err(store_error(err)),
    }
}

/// Answers the update of a user: 204, or the store's failure.
pub fn update_user(stored: Result<(), MappedErrors>) -> (r: Result<u16, ControllerError>)
    ensures
        match stored {
            Ok(_) => r == Ok::<u16, ControllerError>(NO_CONTENT),
            Err(err) => r matches Err(e) && store_failure(err, e),
        },
{
    write_answer(stored, NO_CONTENT)
}

/// Answers the disabling of a user: 200, or the store's failure.
pub fn delete_user(stored: Result<(), MappedErrors>) -> (r: Result<u16, ControllerError>)
    ensures
        match stored {
            Ok(_) => r == Ok::<u16, ControllerError>(OK),
            Err(err) => r matches Err(e) && store_failure(err, e),
        },
{
    write_answer(stored, OK)
}

} // verus!
