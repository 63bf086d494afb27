//! Login: credentials in, session token out.

use vstd::prelude::*;
use crate::auth::{
    claims_issued_at, generate_token_at, issuance_refused, signed_token, token_claims,
    token_valid_at, TOKEN_LIFETIME,
};
use crate::clock::system_time;
use crate::utils::error_handlers::MappedErrors;
use crate::utils::errors::ControllerError;
use crate::utils::status::{INTERNAL_SERVER_ERROR, NOT_FOUND};

verus! {

/// The body of a login request.
#[derive(Debug, Clone, PartialEq, Eq)]
pub struct LoginRequest {
    pub email: String,
    pub password: String,
}

/// The body of a successful login.
#[derive(Debug, Clone, PartialEq, Eq)]
pub struct LoginResponse {
    pub token: String,
}

/// The user a login resolved to.
#[derive(Debug, Clone, PartialEq, Eq)]
pub struct LoginUser {
    pub id: i32,
    pub email: String,
}

/// The error a failed credential lookup is answered with: unknown
/// credentials are a 404, a failing store a 500.
pub open spec fn lookup_failure(err: MappedErrors, e: ControllerError) -> bool {
    match err {
        MappedErrors::NotFound => e.says("Invalid user"@, NOT_FOUND),
        MappedErrors::InternalServerError => e.says("Internal server error"@, INTERNAL_SERVER_ERROR),
    }
}

/// Answers a login, given what the credential lookup found and the clock's
/// reading.
///
/// A failed lookup is answered with its error and no token is issued.
/// Otherwise a token is issued to the user found, as
/// [`generate_token_at`] does; a failure to issue is an internal error with
/// the message that tells why: `clock before epoch`, `clock out of range`
/// or `signing failed`.
pub fn login_at(lookup: Result<LoginUser, MappedErrors>, secret: &str, now: Option<u64>) -> (r:
    Result<LoginResponse, ControllerError>)
    ensures
        match lookup {
            Err(err) => r matches Err(e) && lookup_failure(err, e),
            Ok(user) => match r {
                Ok(resp) => {
                    &&& now matches Some(n)
                    &&& n + TOKEN_LIFETIME <= u64::MAX
                    &&& signed_token(
                        user.id as int,
                        user.email@,
                        n as int,
                        n + TOKEN_LIFETIME,
                        secret@,
                    ) == Some(resp.token@)
                    &&& token_claims(resp.token@, secret@) == Some(
                        claims_issued_at(user.id as int, user.email@, n as int),
                    )
                    &&& forall|at: int| #[trigger]
                        token_valid_at(resp.token@, secret@, at) <==> at < n + TOKEN_LIFETIME
                },
                Err(e) => issuance_refused(user.id as int, user.email@, secret@, now, e),
            },
        },
{
    let user = match lookup {
        Ok(user) => user,
        Err(MappedErrors::NotFound) => {
            return Err(ControllerError::new("Invalid user".to_owned(), NOT_FOUND));
        },
        Err(MappedErrors::InternalServerError) => {
            return Err(
                ControllerError::new("Internal server error".to_owned(), INTERNAL_SERVER_ERROR),
            );
        },
    };
    match generate_token_at(user.id, user.email, secret, now) {
        Ok(token) => Ok(LoginResponse { token }),
        Err(err) => Err(ControllerError::new(err.to_text(), INTERNAL_SERVER_ERROR)),
    }
}

/// Answers a login, reading the system clock.
///
/// Whatever the clock says: a failed lookup is answered with its error, a
/// token that comes out carries the id and the e-mail address of the user
/// found, and a failure to issue is worded as [`login_at`] words it for
/// some reading of the clock.
pub fn login(lookup: Result<LoginUser, MappedErrors>, secret: &str) -> (r: Result<
    LoginResponse,
    ControllerError,
>)
    ensures
        match lookup {
            Err(err) => r matches Err(e) && lookup_failure(err, e),
            Ok(user) => match r {
                Ok(resp) => token_claims(resp.token@, secret@) matches Some(c) && c.user_id
                    == user.id && c.email == user.email@ && c.exp == c.iat + TOKEN_LIFETIME,
                Err(e) => {
                    &&& e.status_code == INTERNAL_SERVER_ERROR
                    &&& exists|now: Option<u64>| #[trigger]
                        issuance_refused(user.id as int, user.email@, secret@, now, e)
                },
            },
        },
{
    let now = match system_time() {
        Some(reading) => Some(reading.0),
        None => None,
    };
    let r = login_at(lookup, secret, now);
    proof {
        if lookup is Ok && r is Err {
            let user = lookup->Ok_0;
            assert(issuance_refused(user.id as int, user.email@, secret@, now, r->Err_0));
        }
    }
    r
}

} // verus!
