//! Failures the engine reports, and how they are shown to a caller.

use crate::ident::{hyphenated, id_text};
use vstd::prelude::*;
use vstd::string::StringExecFns;

verus! {

/// Why an operation failed.
#[derive(Debug, PartialEq, Eq)]
pub enum ApiError {
    /// The store failed; the text is the store's own and is not interpreted.
    DatabaseError(String),
    /// A referenced record does not exist.
    NotFound(String),
    /// The input is malformed or breaks a constraint.
    ValidationError(String),
    /// The caller is not who they must be.
    AuthError(String),
    /// The request is well formed but not allowed.
    BusinessLogicError(String),
}

/// The kinds of failure.
#[derive(Clone, Copy, Debug, PartialEq, Eq, Structural)]
pub enum ErrorKind {
    Database,
    NotFound,
    Validation,
    Auth,
    BusinessLogic,
}

/// What a caller is told about a failure.
#[derive(Debug, PartialEq, Eq)]
pub struct ErrorBody {
    pub status: u16,
    pub error: String,
    pub message: String,
}

/// The text that reports a missing record of the given kind.
pub open spec fn not_found_text(kind: Seq<char>, id: u128) -> Seq<char> {
    kind + " with id "@ + hyphenated(id) + " not found"@
}

impl ApiError {
    /// The text inside the error, whatever its kind.
    pub open spec fn detail(self) -> Seq<char> {
        match self {
            ApiError::DatabaseError(m) => m@,
            ApiError::NotFound(m) => m@,
            ApiError::ValidationError(m) => m@,
            ApiError::AuthError(m) => m@,
            ApiError::BusinessLogicError(m) => m@,
        }
    }

    /// The kind of the error.
    pub open spec fn kind(self) -> ErrorKind {
        match self {
            ApiError::DatabaseError(_) => ErrorKind::Database,
            ApiError::NotFound(_) => ErrorKind::NotFound,
            ApiError::ValidationError(_) => ErrorKind::Validation,
            ApiError::AuthError(_) => ErrorKind::Auth,
            ApiError::BusinessLogicError(_) => ErrorKind::BusinessLogic,
        }
    }

    /// The words that introduce each kind of error in its full text.
    pub open spec fn prefix(self) -> Seq<char> {
        match self {
            ApiError::DatabaseError(_) => "Database error: "@,
            ApiError::NotFound(_) => "Not found: "@,
            ApiError::ValidationError(_) => "Validation error: "@,
            ApiError::AuthError(_) => "Authentication error: "@,
            ApiError::BusinessLogicError(_) => "Business logic error: "@,
        }
    }

    /// The status code a transport layer answers with.
    pub open spec fn status_code(self) -> u16 {
        match self {
            ApiError::NotFound(_) => 404,
            ApiError::ValidationError(_) => 400,
            ApiError::AuthError(_) => 401,
            _ => 500,
        }
    }

    /// The machine-readable name of the failure.
    pub open spec fn error_code(self) -> Seq<char> {
        match self {
            ApiError::NotFound(_) => "not_found"@,
            ApiError::ValidationError(_) => "validation_error"@,
            ApiError::AuthError(_) => "unauthorized"@,
            _ => "internal_server_error"@,
        }
    }

    /// The message shown to the caller: the bare text for missing records,
    /// bad input and failed authentication, the full text otherwise.
    pub open spec fn shown_message(self) -> Seq<char> {
        match self {
            ApiError::NotFound(m) => m@,
            ApiError::ValidationError(m) => m@,
            ApiError::AuthError(m) => m@,
            _ => self.prefix() + self.detail(),
        }
    }

    /// A missing record of the given kind.
    pub fn not_found(kind: &str, id: u128) -> (r: ApiError)
        ensures
            r matches ApiError::NotFound(m) && m@ == not_found_text(kind@, id),
    {
        let text = id_text(id);
        let message = String::from_str(kind).concat(" with id ").concat(text.as_str()).concat(
            " not found",
        );
        ApiError::NotFound(message)
    }

    /// The full text of the error: its kind, then its detail.
    pub fn to_string(&self) -> (r: String)
        ensures
            r@ == self.prefix() + self.detail(),
    {
        match self {
            ApiError::DatabaseError(m) => String::from_str("Database error: ").concat(m.as_str()),
            ApiError::NotFound(m) => String::from_str("Not found: ").concat(m.as_str()),
            ApiError::ValidationError(m) => String::from_str("Validation error: ").concat(
                m.as_str(),
            ),
            ApiError::AuthError(m) => String::from_str("Authentication error: ").concat(
                m.as_str(),
            ),
            ApiError::BusinessLogicError(m) => String::from_str("Business logic error: ").concat(
                m.as_str(),
            ),
        }
    }

    /// What the caller is told: 404 for a missing record, 400 for bad input,
    /// 401 for failed authentication and 500 for everything else.
    pub fn error_response(&self) -> (r: ErrorBody)
        ensures
            r.status == self.status_code(),
            r.error@ == self.error_code(),
            r.message@ == self.shown_message(),
    {
        match self {
            ApiError::NotFound(m) => ErrorBody {
                status: 404,
                error: String::from_str("not_found"),
                message: m.clone(),
            },
            ApiError::ValidationError(m) => ErrorBody {
                status: 400,
                error: String::from_str("validation_error"),
                message: m.clone(),
            },
            ApiError::AuthError(m) => ErrorBody {
                status: 401,
                error: String::from_str("unauthorized"),
                message: m.clone(),
            },
            _ => ErrorBody {
                status: 500,
                error: String::from_str("internal_server_error"),
                message: self.to_string(),
            },
        }
    }
}

} // verus!
