//! The error a handler hands back: a short message and a status code.

use vstd::prelude::*;
use crate::utils::status::{BAD_REQUEST, INTERNAL_SERVER_ERROR, NOT_FOUND, UNAUTHORIZED};

verus! {

/// A failed request: what to tell the caller, and under which status.
#[derive(Debug, Clone, PartialEq, Eq)]
pub struct ControllerError {
    pub message: String,
    pub status_code: u16,
}

/// The stock errors, each with a fixed message and status.
#[derive(Debug, Clone, Copy, PartialEq, Eq, Structural)]
pub enum ControllerErrorType {
    BodyParsingError,
    NotFound,
    Unauthorized,
    InternalServerError,
}

/// The JSON body of an error answer, field by field.
#[derive(Debug, Clone, PartialEq, Eq)]
pub struct ErrorBody {
    pub status_code: u16,
    pub message: String,
}

impl ControllerErrorType {
    /// The message of a stock error.
    pub open spec fn text(self) -> Seq<char> {
        match self {
            ControllerErrorType::BodyParsingError => "Request body inválido"@,
            ControllerErrorType::NotFound => "Recurso não encontrado"@,
            ControllerErrorType::Unauthorized => "Não autorizado"@,
            ControllerErrorType::InternalServerError => "Erro interno"@,
        }
    }

    /// The status of a stock error.
    pub open spec fn status(self) -> u16 {
        match self {
            ControllerErrorType::BodyParsingError => BAD_REQUEST,
            ControllerErrorType::NotFound => NOT_FOUND,
            ControllerErrorType::Unauthorized => UNAUTHORIZED,
            ControllerErrorType::InternalServerError => INTERNAL_SERVER_ERROR,
        }
    }
}

impl ControllerError {
    /// Whether this error carries exactly `message` and `status_code`.
    pub open spec fn says(self, message: Seq<char>, status_code: u16) -> bool {
        self.message@ == message && self.status_code == status_code
    }

    pub fn new(message: String, status_code: u16) -> (r: Self)
        ensures
            r.says(message@, status_code),
    {
        Self { message, status_code }
    }

    /// A malformed request: the given message under status 400.
    pub fn validation_error(message: String) -> (r: Self)
        ensures
            r.says(message@, BAD_REQUEST),
    {
        Self { message, status_code: BAD_REQUEST }
    }

    pub fn from_type(error_type: ControllerErrorType) -> (r: Self)
        ensures
            r.says(error_type.text(), error_type.status()),
    {
        let (message, status_code) = match error_type {
            ControllerErrorType::BodyParsingError => {
                ("Request body inválido".to_owned(), BAD_REQUEST)
            },
            ControllerErrorType::NotFound => ("Recurso não encontrado".to_owned(), NOT_FOUND),
            ControllerErrorType::Unauthorized => ("Não autorizado".to_owned(), UNAUTHORIZED),
            ControllerErrorType::InternalServerError => {
                ("Erro interno".to_owned(), INTERNAL_SERVER_ERROR)
            },
        };
        Self { message, status_code }
    }

    /// The error as text: its message.
    pub fn to_text(&self) -> (r: String)
        ensures
            r@ == self.message@,
    {
        self.message.clone()
    }

    /// The body sent with this error: the status repeated, and the message.
    pub fn body(&self) -> (r: ErrorBody)
        ensures
            r.status_code == self.status_code,
            r.message@ == self.message@,
    {
        ErrorBody { status_code: self.status_code, message: self.message.clone() }
    }
}

} // verus!
