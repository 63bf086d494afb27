//! Error classes and response values shared by every handler.

pub mod error_handlers;
pub mod errors;
pub mod response_builder;
pub mod status;

pub use error_handlers::{error_mapper, Error, InteractFailure, MappedErrors, PoolFailure, QueryFailure};
pub use response_builder::{build_response, Response};
