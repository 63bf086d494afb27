//! The body of a plain answer.

use vstd::prelude::*;

verus! {

/// A one-line answer.
#[derive(Debug, Clone, PartialEq, Eq)]
pub struct Response {
    pub message: String,
}

/// Pairs a status with the body that carries `message`.
pub fn build_response(status: u16, message: String) -> (r: (u16, Response))
    ensures
        r.0 == status,
        r.1.message@ == message@,
{
    (status, Response { message })
}

} // verus!
