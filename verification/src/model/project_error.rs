//! The errors of the service and how each is shown.

use vstd::prelude::*;
use vstd::string::StringExecFns;
use crate::model::text::{decimal, decimal_text};

verus! {

/// A status code with a message, as the error page shows them.
#[derive(Debug, Clone, PartialEq, Eq)]
pub struct ErrorMessage {
    pub code: u16,
    pub message: String,
}

/// Where the browser is sent to see an error: the error page, with the code
/// and the message as they are in its query.
pub open spec fn error_location(code: u16, message: Seq<char>) -> Seq<char> {
    "/error?code="@ + decimal(code as nat) + "&message="@ + message
}

/// The status code for an error that names none.
pub const INTERNAL_SERVER_ERROR: u16 = 500;

impl ErrorMessage {
    /// An error message from a code and a text.
    pub fn new(code: u16, message: &str) -> (error: ErrorMessage)
        ensures
            error.code == code,
            error.message@ == message@,
    {
        ErrorMessage { code, message: String::from_str(message) }
    }

    /// An error message for a text alone: an internal server error.
    pub fn internal(message: &str) -> (error: ErrorMessage)
        ensures
            error.code == 500,
            error.message@ == message@,
    {
        ErrorMessage { code: INTERNAL_SERVER_ERROR, message: String::from_str(message) }
    }

    /// The location that the redirect for this error names.
    pub fn location(&self) -> (to: String)
        ensures
            to@ == error_location(self.code, self.message@),
    {
        let mut to = String::from_str("/error?code=");
        let code = decimal_text(self.code as u64);
        to.append(code.as_str());
        to.append("&message=");
        to.append(self.message.as_str());
        to
    }
}

#[derive(Debug, Clone, Copy, PartialEq, Eq, Structural)]
pub enum UserValidationError {
    MissingEmail,
    InvalidEmailFormat,
}

impl UserValidationError {
    /// What the user is told, as a sequence of characters.
    pub open spec fn text(self) -> Seq<char> {
        match self {
            UserValidationError::MissingEmail => "Email is missing"@,
            UserValidationError::InvalidEmailFormat => "Invalid email format"@,
        }
    }

    /// What the user is told.
    pub fn message(&self) -> (message: &'static str)
        ensures
            message@ == self.text(),
    {
        match self {
            UserValidationError::MissingEmail => "Email is missing",
            UserValidationError::InvalidEmailFormat => "Invalid email format",
        }
    }
}

/// The errors of the API, each with what was reported.
#[derive(Debug, Clone, PartialEq, Eq)]
pub enum ApiError {
    BadRequest(ErrorMessage),
    Forbidden(ErrorMessage),
    Unauthorized(ErrorMessage),
    InternalServerError(ErrorMessage),
    DatabaseError(ErrorMessage),
}

impl ApiError {
    /// The status code that each kind of error answers with. The code that
    /// the error carries does not count.
    pub open spec fn status(self) -> u16 {
        match self {
            ApiError::BadRequest(_) => 400,
            ApiError::Forbidden(_) => 403,
            ApiError::Unauthorized(_) => 401,
            ApiError::InternalServerError(_) => 500,
            ApiError::DatabaseError(_) => 500,
        }
    }

    /// The status code that this error answers with.
    pub fn status_code(&self) -> (code: u16)
        ensures
            code == self.status(),
    {
        match self {
            ApiError::BadRequest(_) => 400,
            ApiError::Forbidden(_) => 403,
            ApiError::Unauthorized(_) => 401,
            ApiError::InternalServerError(_) => 500,
            ApiError::DatabaseError(_) => 500,
        }
    }
}

} // verus!
