//! The liveness endpoint.

use vstd::prelude::*;
use crate::utils::response_builder::{build_response, Response};
use crate::utils::status::OK;

verus! {

/// Says that the gateway is up.
pub fn alive_route() -> (r: (u16, Response))
    ensures
        r.0 == OK,
        r.1.message@ == "O gateway está online!!"@,
{
    build_response(OK, "O gateway está online!!".to_owned())
}

} // verus!
