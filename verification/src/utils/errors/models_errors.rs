//! Failures of the model layer when answered directly.

use vstd::prelude::*;
use crate::utils::status::INTERNAL_SERVER_ERROR;

verus! {

#[derive(Debug, Clone, Copy, PartialEq, Eq, Structural)]
pub enum ModelError {
    NotFound,
    InternalServerError,
}

impl ModelError {
    pub open spec fn text(self) -> Seq<char> {
        match self {
            ModelError::NotFound => "Model not found"@,
            ModelError::InternalServerError => "Internal server error"@,
        }
    }

    /// The answer to send: always status 500, with the variant's message.
    pub fn response(&self) -> (r: (u16, String))
        ensures
            r.0 == INTERNAL_SERVER_ERROR,
            r.1@ == self.text(),
    {
        let message = match self {
            ModelError::NotFound => "Model not found",
            ModelError::InternalServerError => "Internal server error",
        };
        (INTERNAL_SERVER_ERROR, message.to_owned())
    }
}

} // verus!
