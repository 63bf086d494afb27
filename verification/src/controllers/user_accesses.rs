//! The access-window endpoints: what is written to the store, and the
//! answers given what the store said.
//!
//! A window is checked before it is written: its weekday must be one, and
//! its start must not lie after its end.

use vstd::prelude::*;
use crate::controllers::users::{store_error, store_failure, write_answer};
use crate::models::users_accesses::{UserAccess, UserAccessCreate, UserAccessUpdate};
use crate::utils::error_handlers::MappedErrors;
use crate::utils::errors::{ControllerError, ControllerErrorType};
use crate::utils::status::{CREATED, NO_CONTENT, OK};

verus! {

/// The body of a window listing.
#[derive(Debug, Clone, PartialEq, Eq)]
pub struct AccessesListResponse {
    pub accesses: Vec<UserAccess>,
}

/// Whether `e` is the stock error `kind`.
pub open spec fn stock_error(kind: ControllerErrorType, e: ControllerError) -> bool {
    e.says(kind.text(), kind.status())
}

/// The key a path segment stands for; `None` where the number is beyond
/// every key of the store.
pub open spec fn key_of(segment: u32) -> Option<i32> {
    if segment <= i32::MAX {
        Some(segment as i32)
    } else {
        None
    }
}

/// Reads a path segment as a key of the store.
pub fn path_key(segment: u32) -> (r: Option<i32>)
    ensures
        r == key_of(segment),
{
    if segment <= 2147483647 {
        Some(segment as i32)
    } else {
        None
    }
}

/// The window to store for a user: the one asked for, under the user's key.
/// A user number beyond every key is answered as not found; a weekday
/// outside 1..=7, a time off the clock face, or a start after the end as an
/// invalid body.
pub fn create_access(user_id: u32, access_data: UserAccessCreate) -> (r: Result<
    UserAccess,
    ControllerError,
>)
    ensures
        match r {
            Ok(w) => key_of(user_id) == Some(w.user_id) && access_data.wf() && w.wf()
                && w.day_of_week == access_data.day_of_week && w.start == access_data.start
                && w.end == access_data.end,
            Err(e) => if key_of(user_id) is None {
                stock_error(ControllerErrorType::NotFound, e)
            } else {
                !access_data.wf() && stock_error(ControllerErrorType::BodyParsingError, e)
            },
        },
{
    let key = match path_key(user_id) {
        Some(key) => key,
        None => {
            return Err(ControllerError::from_type(ControllerErrorType::NotFound));
        },
    };
    if !access_data.validate() {
        return Err(ControllerError::from_type(ControllerErrorType::BodyParsingError));
    }
    Ok(
        UserAccess {
            user_id: key,
            day_of_week: access_data.day_of_week,
            start: access_data.start,
            end: access_data.end,
        },
    )
}

/// Answers the creation of a window: 201, or the store's failure.
pub fn access_created(stored: Result<(), MappedErrors>) -> (r: Result<u16, ControllerError>)
    ensures
        match stored {
            Ok(_) => r == Ok::<u16, ControllerError>(CREATED),
            Err(err) => r matches Err(e) && store_failure(err, e),
        },
{
    write_answer(stored, CREATED)
}

/// Answers the listing of one user's windows.
pub fn find_by_user(found: Result<Vec<UserAccess>, MappedErrors>) -> (r: Result<
    AccessesListResponse,
    ControllerError,
>)
    ensures
        match found {
            Ok(accesses) => r matches Ok(body) && body.accesses == accesses,
            Err(err) => r matches Err(e) && store_failure(err, e),
        },
{
    match found {
        Ok(accesses) => Ok(AccessesListResponse { accesses }),
        Err(err) => Err(store_error(err)),
    }
}

/// Answers the listing of all windows.
pub fn list_all(found: Result<Vec<UserAccess>, MappedErrors>) -> (r: Result<
    AccessesListResponse,
    ControllerError,
>)
    ensures
        match found {
            Ok(accesses) => r matches Ok(body) && body.accesses == accesses,
            Err(err) => r matches Err(e) && store_failure(err, e),
        },
{
    find_by_user(found)
}

/// The window to write over the one of `(user_id, day_id)`: the new bounds
/// under that key. Numbers beyond every key are answered as not found; a
/// weekday outside 1..=7, a time off the clock face, or a start after the
/// end as an invalid body.
pub fn update_access(user_id: u32, day_id: u32, access_data: UserAccessUpdate) -> (r: Result<
    UserAccess,
    ControllerError,
>)
    ensures
        match r {
            Ok(w) => key_of(user_id) == Some(w.user_id) && key_of(day_id) == Some(w.day_of_week)
                && w.wf() && w.start == access_data.start && w.end == access_data.end,
            Err(e) => if key_of(user_id) is None || key_of(day_id) is None {
                stock_error(ControllerErrorType::NotFound, e)
            } else {
                !(1 <= day_id <= 7 && access_data.wf()) && stock_error(
                    ControllerErrorType::BodyParsingError,
                    e,
                )
            },
        },
{
    let (user_key, day_key) = match (path_key(user_id), path_key(day_id)) {
        (Some(user_key), Some(day_key)) => (user_key, day_key),
        _ => {
            return Err(ControllerError::from_type(ControllerErrorType::NotFound));
        },
    };
    let window = UserAccess {
        user_id: user_key,
        day_of_week: day_key,
        start: access_data.start,
        end: access_data.end,
    };
    if window.validate() {
        Ok(window)
    } else {
        Err(ControllerError::from_type(ControllerErrorType::BodyParsingError))
    }
}

/// Answers the update of a window: 204, or the store's failure.
pub fn access_updated(stored: Result<(), MappedErrors>) -> (r: Result<u16, ControllerError>)
    ensures
        match stored {
            Ok(_) => r == Ok::<u16, ControllerError>(NO_CONTENT),
            Err(err) => r matches Err(e) && store_failure(err, e),
        },
{
    write_answer(stored, NO_CONTENT)
}

/// Answers the deletion of a window: 200, or the store's failure.
pub fn delete_access(stored: Result<(), MappedErrors>) -> (r: Result<u16, ControllerError>)
    ensures
        match stored {
            Ok(_) => r == Ok::<u16, ControllerError>(OK),
            Err(err) => r matches Err(e) && store_failure(err, e),
        },
{
    write_answer(stored, OK)
}

} // verus!
