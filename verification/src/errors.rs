//! The error taxonomy of the backend and its mapping to wire-level data:
//! a human-readable message, a stable machine-readable code, and an HTTP
//! status for every error kind.

use vstd::prelude::*;
use vstd::string::StringExecFns;

verus! {

/// Everything an operation of this library can fail with.
#[derive(Debug)]
pub enum AppError {
    DatabaseError(String),
    NotFound(String),
    BadRequest(String),
    Unauthorized(String),
    Conflict(String),
    InternalServerError(String),
    FileTooLarge,
    InvalidFileType,
    MultipartError(String),
}

/// The structured JSON body sent for every failure.
#[derive(Debug)]
pub struct ErrorResponse {
    pub error: String,
    pub details: Option<String>,
    pub code: String,
}

impl AppError {
    /// The human-readable message for this error.
    pub open spec fn spec_message(self) -> Seq<char> {
        match self {
            AppError::DatabaseError(msg) => "Database error: "@ + msg@,
            AppError::NotFound(msg) => "Not found: "@ + msg@,
            AppError::BadRequest(msg) => "Bad request: "@ + msg@,
            AppError::Unauthorized(msg) => "Unauthorized: "@ + msg@,
            AppError::Conflict(msg) => "Conflict: "@ + msg@,
            AppError::InternalServerError(msg) => "Internal server error: "@ + msg@,
            AppError::FileTooLarge => "File size exceeds maximum allowed size"@,
            AppError::InvalidFileType => "Invalid file type"@,
            AppError::MultipartError(msg) => "Multipart error: "@ + msg@,
        }
    }

    /// The stable machine-readable code for this error.
    pub open spec fn spec_code(self) -> Seq<char> {
        match self {
            AppError::DatabaseError(_) => "DATABASE_ERROR"@,
            AppError::NotFound(_) => "NOT_FOUND"@,
            AppError::BadRequest(_) => "BAD_REQUEST"@,
            AppError::Unauthorized(_) => "UNAUTHORIZED"@,
            AppError::Conflict(_) => "CONFLICT"@,
            AppError::InternalServerError(_) => "INTERNAL_SERVER_ERROR"@,
            AppError::FileTooLarge => "FILE_TOO_LARGE"@,
            AppError::InvalidFileType => "INVALID_FILE_TYPE"@,
            AppError::MultipartError(_) => "MULTIPART_ERROR"@,
        }
    }

    /// The HTTP status for this error.
    pub open spec fn spec_status(self) -> int {
        match self {
            AppError::DatabaseError(_) => 500,
            AppError::NotFound(_) => 404,
            AppError::BadRequest(_) => 400,
            AppError::Unauthorized(_) => 401,
            AppError::Conflict(_) => 409,
            AppError::InternalServerError(_) => 500,
            AppError::FileTooLarge => 413,
            AppError::InvalidFileType => 400,
            AppError::MultipartError(_) => 400,
        }
    }

    /// Renders the human-readable message.
    pub fn message(&self) -> (m: String)
        ensures
            m@ == self.spec_message(),
    {
        match self {
            AppError::DatabaseError(msg) => {
                let mut s = String::from_str("Database error: ");
                s.append(msg.as_str());
                s
            },
            AppError::NotFound(msg) => {
                let mut s = String::from_str("Not found: ");
                s.append(msg.as_str());
                s
            },
            AppError::BadRequest(msg) => {
                let mut s = String::from_str("Bad request: ");
                s.append(msg.as_str());
                s
            },
            AppError::Unauthorized(msg) => {
                let mut s = String::from_str("Unauthorized: ");
                s.append(msg.as_str());
                s
            },
            AppError::Conflict(msg) => {
                let mut s = String::from_str("Conflict: ");
                s.append(msg.as_str());
                s
            },
            AppError::InternalServerError(msg) => {
                let mut s = String::from_str("Internal server error: ");
                s.append(msg.as_str());
                s
            },
            AppError::FileTooLarge => String::from_str("File size exceeds maximum allowed size"),
            AppError::InvalidFileType => String::from_str("Invalid file type"),
            AppError::MultipartError(msg) => {
                let mut s = String::from_str("Multipart error: ");
                s.append(msg.as_str());
                s
            },
        }
    }

    /// The stable code string.
    pub fn code(&self) -> (c: &'static str)
        ensures
            c@ == self.spec_code(),
    {
        match self {
            AppError::DatabaseError(_) => "DATABASE_ERROR",
            AppError::NotFound(_) => "NOT_FOUND",
            AppError::BadRequest(_) => "BAD_REQUEST",
            AppError::Unauthorized(_) => "UNAUTHORIZED",
            AppError::Conflict(_) => "CONFLICT",
            AppError::InternalServerError(_) => "INTERNAL_SERVER_ERROR",
            AppError::FileTooLarge => "FILE_TOO_LARGE",
            AppError::InvalidFileType => "INVALID_FILE_TYPE",
            AppError::MultipartError(_) => "MULTIPART_ERROR",
        }
    }

    /// The HTTP status code.
    pub fn status_code(&self) -> (s: u16)
        ensures
            s == self.spec_status(),
    {
        match self {
            AppError::DatabaseError(_) => 500,
            AppError::NotFound(_) => 404,
            AppError::BadRequest(_) => 400,
            AppError::Unauthorized(_) => 401,
            AppError::Conflict(_) => 409,
            AppError::InternalServerError(_) => 500,
            AppError::FileTooLarge => 413,
            AppError::InvalidFileType => 400,
            AppError::MultipartError(_) => 400,
        }
    }

    /// The structured body for this error: message, no details, stable code.
    pub fn to_error_response(&self) -> (r: ErrorResponse)
        ensures
            r.error@ == self.spec_message(),
            r.details is None,
            r.code@ == self.spec_code(),
    {
        ErrorResponse { error: self.message(), details: None, code: String::from_str(self.code()) }
    }
}

} // verus!
