//! Failures, and the error payload that each of them is answered with.
//!
//! The codes are part of the external interface and keep their spelling. A
//! request body that does not parse never gets here: the transport turns it
//! away on its own.

use crate::response::{
    ErrorResponse, ErrorView, ENVIRONMENT, STATUS_BAD_REQUEST, STATUS_INTERNAL_ERROR,
    STATUS_METHOD_NOT_ALLOWED,
};
use crate::validate::ValidationError;
use vstd::prelude::*;

verus! {

/// Why no session is sent back.
#[derive(Debug, Clone, Copy, PartialEq, Eq, Structural)]
pub enum Rejection {
    /// The request broke a validation rule.
    Invalid(ValidationError),
    /// The transport could not read a header of the request.
    InvalidHeader,
    /// The request came with a method that is not served.
    MethodNotAllowed,
    /// Anything that was not foreseen.
    Internal,
}

impl Rejection {
    /// The HTTP status that a rejection is answered with.
    pub open spec fn status(self) -> u16 {
        match self {
            Rejection::Invalid(_) => STATUS_BAD_REQUEST,
            Rejection::InvalidHeader => STATUS_BAD_REQUEST,
            Rejection::MethodNotAllowed => STATUS_METHOD_NOT_ALLOWED,
            Rejection::Internal => STATUS_INTERNAL_ERROR,
        }
    }

    /// The machine-readable code of a rejection.
    pub open spec fn code_text(self) -> Seq<char> {
        match self {
            Rejection::Invalid(error) => error.code_text(),
            Rejection::InvalidHeader => "INVALID_HEADER"@,
            Rejection::MethodNotAllowed => "METHOD_NOT_ALLOWED"@,
            Rejection::Internal => "INTERNAL_ERROR"@,
        }
    }

    /// The human-readable message of a rejection.
    pub open spec fn message_text(self) -> Seq<char> {
        match self {
            Rejection::Invalid(error) => error.message_text(),
            Rejection::InvalidHeader => "invalid header"@,
            Rejection::MethodNotAllowed => "method not allowed"@,
            Rejection::Internal => "internal server error"@,
        }
    }
}

/// The error payload that a rejection is answered with.
pub open spec fn error_response_of(rejection: Rejection) -> ErrorView {
    ErrorView {
        status: rejection.status(),
        success: false,
        error: rejection.message_text(),
        error_code: rejection.code_text(),
        environment: ENVIRONMENT@,
    }
}

/// Maps a rejection to the error payload and the HTTP status that it is
/// answered with.
pub fn handle_rejection(rejection: &Rejection) -> (response: ErrorResponse)
    ensures
        response@ == error_response_of(*rejection),
{
    let (status, error, error_code) = match rejection {
        Rejection::Invalid(error) => (STATUS_BAD_REQUEST, error.message(), error.code()),
        Rejection::InvalidHeader => (STATUS_BAD_REQUEST, "invalid header", "INVALID_HEADER"),
        Rejection::MethodNotAllowed => (
            STATUS_METHOD_NOT_ALLOWED,
            "method not allowed",
            "METHOD_NOT_ALLOWED",
        ),
        Rejection::Internal => (STATUS_INTERNAL_ERROR, "internal server error", "INTERNAL_ERROR"),
    };
    ErrorResponse { status, success: false, error, error_code, environment: ENVIRONMENT }
}

} // verus!
