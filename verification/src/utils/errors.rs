//! The errors a handler answers with.

pub mod controller_errors;
pub mod models_errors;

pub use controller_errors::{ControllerError, ControllerErrorType, ErrorBody};
pub use models_errors::ModelError;
