//! Error taxonomy.
//!
//! `ApiError` classifies everything a Store or Cache operation can report;
//! `ServerError` is the engine's own delivery-directed error: it says whom an
//! error message must reach.  The Store's error reports arrive as a
//! `StoreErrorKind`, the plain classification of the outside database error;
//! mapping that classification to an `ApiError` is part of the engine and is
//! verified here.

use vstd::prelude::*;
use vstd::string::StringExecFns;

verus! {

/// An operation-level error, tagged by how the caller is to blame or retry.
#[derive(Debug, PartialEq, Eq)]
pub enum ApiError {
    Internal { message: String },
    BadRequest { message: String },
    NotFound { message: String },
    Unauthorized { message: String },
    UniqueViolation { message: String },
    CheckViolation { message: String },
    ForeignKeyViolation { message: String },
    NotNullViolation { message: String },
    Validation { message: String, code: String, field: Option<String> },
}

pub ghost enum ApiErrorView {
    Internal { message: Seq<char> },
    BadRequest { message: Seq<char> },
    NotFound { message: Seq<char> },
    Unauthorized { message: Seq<char> },
    UniqueViolation { message: Seq<char> },
    CheckViolation { message: Seq<char> },
    ForeignKeyViolation { message: Seq<char> },
    NotNullViolation { message: Seq<char> },
    Validation { message: Seq<char>, code: Seq<char>, field: Option<Seq<char>> },
}

impl View for ApiError {
    type V = ApiErrorView;

    open spec fn view(&self) -> ApiErrorView {
        match self {
            ApiError::Internal { message } => ApiErrorView::Internal { message: message@ },
            ApiError::BadRequest { message } => ApiErrorView::BadRequest { message: message@ },
            ApiError::NotFound { message } => ApiErrorView::NotFound { message: message@ },
            ApiError::Unauthorized { message } => ApiErrorView::Unauthorized {
                message: message@,
            },
            ApiError::UniqueViolation { message } => ApiErrorView::UniqueViolation {
                message: message@,
            },
            ApiError::CheckViolation { message } => ApiErrorView::CheckViolation {
                message: message@,
            },
            ApiError::ForeignKeyViolation { message } => ApiErrorView::ForeignKeyViolation {
                message: message@,
            },
            ApiError::NotNullViolation { message } => ApiErrorView::NotNullViolation {
                message: message@,
            },
            ApiError::Validation { message, code, field } => ApiErrorView::Validation {
                message: message@,
                code: code@,
                field: match field {
                    Some(f) => Some(f@),
                    None => None,
                },
            },
        }
    }
}

/// The message a given error carries.
pub open spec fn api_error_message(e: ApiErrorView) -> Seq<char> {
    match e {
        ApiErrorView::Internal { message } => message,
        ApiErrorView::BadRequest { message } => message,
        ApiErrorView::NotFound { message } => message,
        ApiErrorView::Unauthorized { message } => message,
        ApiErrorView::UniqueViolation { message } => message,
        ApiErrorView::CheckViolation { message } => message,
        ApiErrorView::ForeignKeyViolation { message } => message,
        ApiErrorView::NotNullViolation { message } => message,
        ApiErrorView::Validation { message, .. } => message,
    }
}

impl ApiError {
    /// An internal error with the given message.
    pub fn internal(message: String) -> (r: ApiError)
        ensures
            r@ == (ApiErrorView::Internal { message: message@ }),
    {
        ApiError::Internal { message }
    }

    /// The HTTP status that this error maps to.
    pub fn status_code(&self) -> (r: u16)
        ensures
            r == match self@ {
                ApiErrorView::Internal { .. } => 500u16,
                ApiErrorView::NotFound { .. } => 404u16,
                ApiErrorView::Unauthorized { .. } => 401u16,
                _ => 400u16,
            },
    {
        match self {
            ApiError::Internal { .. } => 500,
            ApiError::BadRequest { .. } => 400,
            ApiError::UniqueViolation { .. } => 400,
            ApiError::Validation { .. } => 400,
            ApiError::CheckViolation { .. } => 400,
            ApiError::ForeignKeyViolation { .. } => 400,
            ApiError::NotNullViolation { .. } => 400,
            ApiError::NotFound { .. } => 404,
            ApiError::Unauthorized { .. } => 401,
        }
    }
}

/// The status line of the HTTP status an error maps to.
pub open spec fn status_line(e: ApiErrorView) -> Seq<char> {
    match e {
        ApiErrorView::Internal { .. } => "500 Internal Server Error"@,
        ApiErrorView::NotFound { .. } => "404 Not Found"@,
        ApiErrorView::Unauthorized { .. } => "401 Unauthorized"@,
        _ => "400 Bad Request"@,
    }
}

/// The log-facing description of an error: its kind, its status line, and
/// its message.
pub open spec fn error_description(e: ApiErrorView) -> Seq<char> {
    match e {
        ApiErrorView::Internal { message } => "Internal error: "@ + status_line(e) + " - "@
            + message,
        ApiErrorView::BadRequest { message } => "Bad request: "@ + status_line(e) + " - "@
            + message,
        ApiErrorView::NotFound { message } => "Not found: "@ + status_line(e) + " - "@ + message,
        ApiErrorView::Unauthorized { message } => "Unauthorized: "@ + status_line(e) + " - "@
            + message,
        ApiErrorView::UniqueViolation { message } => "Unique violation: "@ + status_line(e)
            + " - "@ + message,
        ApiErrorView::CheckViolation { message } => "Check violation: "@ + status_line(e) + " - "@
            + message,
        ApiErrorView::ForeignKeyViolation { message } => "Foreign key violation: "@ + status_line(
            e,
        ) + " - "@ + message,
        ApiErrorView::NotNullViolation { message } => "Not null violation: "@ + status_line(e)
            + " - "@ + message,
        ApiErrorView::Validation { message, .. } => "Validation error: "@ + status_line(e) + " - "@
            + message,
    }
}

impl ApiError {
    fn described(prefix: &str, status: &str, message: &String) -> (r: String)
        ensures
            r@ == prefix@ + status@ + " - "@ + message@,
    {
        let mut r = prefix.to_owned();
        r.append(status);
        r.append(" - ");
        r.append(message.as_str());
        r
    }

    /// Describes the error for operators, as it is logged.
    pub fn describe(&self) -> (r: String)
        ensures
            r@ == error_description(self@),
    {
        match self {
            ApiError::Internal { message } => Self::described(
                "Internal error: ",
                "500 Internal Server Error",
                message,
            ),
            ApiError::BadRequest { message } => Self::described(
                "Bad request: ",
                "400 Bad Request",
                message,
            ),
            ApiError::NotFound { message } => Self::described(
                "Not found: ",
                "404 Not Found",
                message,
            ),
            ApiError::Unauthorized { message } => Self::described(
                "Unauthorized: ",
                "401 Unauthorized",
                message,
            ),
            ApiError::UniqueViolation { message } => Self::described(
                "Unique violation: ",
                "400 Bad Request",
                message,
            ),
            ApiError::CheckViolation { message } => Self::described(
                "Check violation: ",
                "400 Bad Request",
                message,
            ),
            ApiError::ForeignKeyViolation { message } => Self::described(
                "Foreign key violation: ",
                "400 Bad Request",
                message,
            ),
            ApiError::NotNullViolation { message } => Self::described(
                "Not null violation: ",
                "400 Bad Request",
                message,
            ),
            ApiError::Validation { message, .. } => Self::described(
                "Validation error: ",
                "400 Bad Request",
                message,
            ),
        }
    }
}

impl Default for ApiError {
    fn default() -> (r: ApiError)
        ensures
            r@ == (ApiErrorView::Internal { message: "Internal server error"@ }),
    {
        ApiError::Internal { message: String::from_str("Internal server error") }
    }
}

/// The plain classification of an error reported by the durable Store, as
/// the edge that talks to the database hands it in.
#[derive(Debug, Clone, Copy)]
pub enum StoreErrorKind {
    UniqueViolation,
    CheckViolation,
    ForeignKeyViolation,
    NotNullViolation,
    NotFound,
    Other,
}

/// The `ApiError` that a Store error of the given kind becomes.
pub open spec fn store_error_view(kind: StoreErrorKind) -> ApiErrorView {
    match kind {
        StoreErrorKind::UniqueViolation => ApiErrorView::UniqueViolation {
            message: "It seems like this record already exists"@,
        },
        StoreErrorKind::CheckViolation => ApiErrorView::CheckViolation {
            message: "Constraint check failed"@,
        },
        StoreErrorKind::ForeignKeyViolation => ApiErrorView::ForeignKeyViolation {
            message: "Foreign key constraint check failed"@,
        },
        StoreErrorKind::NotNullViolation => ApiErrorView::NotNullViolation {
            message: "Not null constraint check failed"@,
        },
        StoreErrorKind::NotFound => ApiErrorView::NotFound { message: "Record not found"@ },
        StoreErrorKind::Other => ApiErrorView::Internal { message: "Internal server error"@ },
    }
}

impl ApiError {
    /// Classifies a Store error report into the error returned to callers.
    pub fn from_store_error(kind: StoreErrorKind) -> (r: ApiError)
        ensures
            r@ == store_error_view(kind),
    {
        match kind {
            StoreErrorKind::UniqueViolation => ApiError::UniqueViolation {
                message: String::from_str("It seems like this record already exists"),
            },
            StoreErrorKind::CheckViolation => ApiError::CheckViolation {
                message: String::from_str("Constraint check failed"),
            },
            StoreErrorKind::ForeignKeyViolation => ApiError::ForeignKeyViolation {
                message: String::from_str("Foreign key constraint check failed"),
            },
            StoreErrorKind::NotNullViolation => ApiError::NotNullViolation {
                message: String::from_str("Not null constraint check failed"),
            },
            StoreErrorKind::NotFound => ApiError::NotFound {
                message: String::from_str("Record not found"),
            },
            StoreErrorKind::Other => ApiError::Internal {
                message: String::from_str("Internal server error"),
            },
        }
    }
}

/// A delivery-directed error: whom an error must reach, and with what text.
#[derive(Debug, PartialEq, Eq)]
pub enum ServerError {
    Private { id: String, error: String },
    Broadcast { session_id: String, error: String },
    Silent,
}

pub ghost enum ServerErrorView {
    Private { id: Seq<char>, error: Seq<char> },
    Broadcast { session_id: Seq<char>, error: Seq<char> },
    Silent,
}

impl View for ServerError {
    type V = ServerErrorView;

    open spec fn view(&self) -> ServerErrorView {
        match self {
            ServerError::Private { id, error } => ServerErrorView::Private {
                id: id@,
                error: error@,
            },
            ServerError::Broadcast { session_id, error } => ServerErrorView::Broadcast {
                session_id: session_id@,
                error: error@,
            },
            ServerError::Silent => ServerErrorView::Silent,
        }
    }
}

} // verus!
