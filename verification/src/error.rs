//! The closed set of errors that a handler can answer with, and how each is shown.

use crate::outside::{is_row_not_found, storage_failure};
use vstd::prelude::*;
use vstd::string::StringExecFns;

verus! {

/// The four kinds of error that leave the service.
#[derive(Clone, Copy, Debug, PartialEq, Eq, Structural)]
pub enum ErrorKind {
    NotFound,
    BadRequest,
    InternalServerError,
    Conflict,
}

impl ErrorKind {
    /// The HTTP status that stands for this kind.
    pub open spec fn status(self) -> u16 {
        match self {
            ErrorKind::NotFound => 404,
            ErrorKind::BadRequest => 400,
            ErrorKind::InternalServerError => 500,
            ErrorKind::Conflict => 409,
        }
    }

    /// The machine-readable tag of this kind.
    pub open spec fn tag(self) -> Seq<char> {
        match self {
            ErrorKind::NotFound => "NOT_FOUND"@,
            ErrorKind::BadRequest => "BAD_REQUEST"@,
            ErrorKind::InternalServerError => "INTERNAL_SERVER_ERROR"@,
            ErrorKind::Conflict => "CONFLICT"@,
        }
    }

    /// The HTTP status code of this kind.
    pub fn status_code(self) -> (code: u16)
        ensures
            code == self.status(),
    {
        match self {
            ErrorKind::NotFound => 404,
            ErrorKind::BadRequest => 400,
            ErrorKind::InternalServerError => 500,
            ErrorKind::Conflict => 409,
        }
    }

    /// The tag under which this kind appears in an error body.
    pub fn tag_text(self) -> (text: &'static str)
        ensures
            text@ == self.tag(),
    {
        match self {
            ErrorKind::NotFound => "NOT_FOUND",
            ErrorKind::BadRequest => "BAD_REQUEST",
            ErrorKind::InternalServerError => "INTERNAL_SERVER_ERROR",
            ErrorKind::Conflict => "CONFLICT",
        }
    }
}

/// No two kinds share a status code.
pub proof fn status_tells_kinds_apart(a: ErrorKind, b: ErrorKind)
    requires
        a.status() == b.status(),
    ensures
        a == b,
{
}

/// The JSON body of every error response.
#[derive(Clone, Debug, PartialEq, Eq)]
pub struct ErrorResponse {
    pub error: String,
    pub message: String,
}

/// An error that a handler answers with: its kind and a message for a human reader.
#[derive(Clone, Debug, PartialEq, Eq)]
pub enum ApiError {
    NotFound(String),
    BadRequest(String),
    InternalServerError(String),
    Conflict(String),
}

/// An `ApiError` as mathematical values.
pub ghost struct ApiErrorView {
    pub kind: ErrorKind,
    pub message: Seq<char>,
}

impl View for ApiError {
    type V = ApiErrorView;

    open spec fn view(&self) -> ApiErrorView {
        match self {
            ApiError::NotFound(m) => ApiErrorView { kind: ErrorKind::NotFound, message: m@ },
            ApiError::BadRequest(m) => ApiErrorView { kind: ErrorKind::BadRequest, message: m@ },
            ApiError::InternalServerError(m) => ApiErrorView {
                kind: ErrorKind::InternalServerError,
                message: m@,
            },
            ApiError::Conflict(m) => ApiErrorView { kind: ErrorKind::Conflict, message: m@ },
        }
    }
}

/// Why a statement sent to the store failed: no row matched, or anything else, with
/// the store's own description of it.
#[derive(Clone, Debug, PartialEq, Eq)]
pub enum DbFailure {
    RowNotFound,
    Other(String),
}

impl DbFailure {
    /// What the storage driver reported, as this library reads it: whether no row
    /// matched, and for anything else the driver's description.
    pub fn read(err: &sqlx::Error) -> (failure: DbFailure)
        ensures
            (failure is RowNotFound) == is_row_not_found(*err),
    {
        storage_failure(err)
    }
}

/// The error that a storage failure is answered with.
pub open spec fn failure_error(failure: DbFailure) -> ApiErrorView {
    match failure {
        DbFailure::RowNotFound => ApiErrorView {
            kind: ErrorKind::NotFound,
            message: "Resource not found"@,
        },
        DbFailure::Other(cause) => ApiErrorView {
            kind: ErrorKind::InternalServerError,
            message: "Database error: "@ + cause@,
        },
    }
}

/// `error` is what a storage failure other than a missing row is answered with, for
/// some description of the cause.
pub open spec fn is_other_failure_error(error: ApiErrorView) -> bool {
    exists|cause: String| error == #[trigger] failure_error(DbFailure::Other(cause))
}

impl ApiError {
    /// The kind of this error.
    pub fn kind(&self) -> (kind: ErrorKind)
        ensures
            kind == self@.kind,
    {
        match self {
            ApiError::NotFound(_) => ErrorKind::NotFound,
            ApiError::BadRequest(_) => ErrorKind::BadRequest,
            ApiError::InternalServerError(_) => ErrorKind::InternalServerError,
            ApiError::Conflict(_) => ErrorKind::Conflict,
        }
    }

    /// The HTTP status code of this error: 404, 400, 500 or 409.
    pub fn status_code(&self) -> (code: u16)
        ensures
            code == self@.kind.status(),
    {
        self.kind().status_code()
    }

    /// The message of this error, as it is shown.
    pub fn to_string(&self) -> (text: String)
        ensures
            text@ == self@.message,
    {
        match self {
            ApiError::NotFound(m) => m.clone(),
            ApiError::BadRequest(m) => m.clone(),
            ApiError::InternalServerError(m) => m.clone(),
            ApiError::Conflict(m) => m.clone(),
        }
    }

    /// The body that this error is sent with: the tag of its kind and its message.
    pub fn error_response(&self) -> (body: ErrorResponse)
        ensures
            body.error@ == self@.kind.tag(),
            body.message@ == self@.message,
    {
        ErrorResponse {
            error: String::from_str(self.kind().tag_text()),
            message: self.to_string(),
        }
    }

    /// The error for a storage failure: `NotFound` where no row matched, else
    /// `InternalServerError` with the cause in its message.
    pub fn from_failure(failure: DbFailure) -> (error: ApiError)
        ensures
            error@ == failure_error(failure),
    {
        match failure {
            DbFailure::RowNotFound => ApiError::NotFound(String::from_str("Resource not found")),
            DbFailure::Other(cause) => ApiError::InternalServerError(
                String::from_str("Database error: ").concat(cause.as_str()),
            ),
        }
    }

    /// The error for a failure that the storage driver reported: `NotFound` exactly
    /// where the driver found no row, else `InternalServerError` with "Database error: "
    /// and the driver's description as its message.
    pub fn from(err: &sqlx::Error) -> (error: ApiError)
        ensures
            (error@.kind == ErrorKind::NotFound) == is_row_not_found(*err),
            is_row_not_found(*err) ==> error@ == failure_error(DbFailure::RowNotFound),
            !is_row_not_found(*err) ==> is_other_failure_error(error@),
    {
        ApiError::from_failure(DbFailure::read(err))
    }
}

} // verus!
