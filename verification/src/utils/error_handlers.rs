//! Folding of store failures into the two classes the handlers distinguish.

use vstd::prelude::*;

verus! {

/// The two classes a store failure is folded into.
#[derive(Debug, Clone, Copy, PartialEq, Eq, Structural)]
pub enum MappedErrors {
    InternalServerError,
    NotFound,
}

impl MappedErrors {
    /// The text shown for this class.
    pub open spec fn text(self) -> Seq<char> {
        match self {
            MappedErrors::NotFound => "Not found"@,
            MappedErrors::InternalServerError => "Internal server error"@,
        }
    }

    /// Renders the class as text.
    pub fn message(&self) -> (r: String)
        ensures
            r@ == self.text(),
    {
        match self {
            MappedErrors::NotFound => "Not found".to_owned(),
            MappedErrors::InternalServerError => "Internal server error".to_owned(),
        }
    }
}

/// A failure that can be folded into a [`MappedErrors`] class.
pub trait Error {
    /// The class this failure belongs to.
    spec fn infra_class(&self) -> MappedErrors;

    fn as_infra_error(&self) -> (r: MappedErrors)
        ensures
            r == self.infra_class(),
    ;
}

/// Folds any failure into its class.
pub fn error_mapper<T: Error>(error: T) -> (r: MappedErrors)
    ensures
        r == error.infra_class(),
{
    error.as_infra_error()
}

/// What a query against the store can fail with: the row is missing, or
/// anything else.
#[derive(Debug, Clone, Copy, PartialEq, Eq, Structural)]
pub enum QueryFailure {
    NotFound,
    Other,
}

/// No connection could be checked out of the pool.
#[derive(Debug, Clone, Copy, PartialEq, Eq, Structural)]
pub struct PoolFailure;

/// The worker that ran the query was cancelled or panicked.
#[derive(Debug, Clone, Copy, PartialEq, Eq, Structural)]
pub struct InteractFailure;

impl Error for QueryFailure {
    open spec fn infra_class(&self) -> MappedErrors {
        match self {
            QueryFailure::NotFound => MappedErrors::NotFound,
            QueryFailure::Other => MappedErrors::InternalServerError,
        }
    }

    fn as_infra_error(&self) -> (r: MappedErrors) {
        match self {
            QueryFailure::NotFound => MappedErrors::NotFound,
            _ => MappedErrors::InternalServerError,
        }
    }
}

impl Error for PoolFailure {
    open spec fn infra_class(&self) -> MappedErrors {
        MappedErrors::InternalServerError
    }

    fn as_infra_error(&self) -> (r: MappedErrors) {
        MappedErrors::InternalServerError
    }
}

impl Error for InteractFailure {
    open spec fn infra_class(&self) -> MappedErrors {
        MappedErrors::InternalServerError
    }

    fn as_infra_error(&self) -> (r: MappedErrors) {
        MappedErrors::InternalServerError
    }
}

} // verus!
