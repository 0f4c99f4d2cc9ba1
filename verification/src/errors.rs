//! Error taxonomy of the service. Every store-level failure is classified
//! into one application error value carrying a kind, a client-safe message
//! and an optional underlying cause. The cause is for operator-facing logs
//! only: the client-facing representation never contains it.

use vstd::prelude::*;

verus! {

/// Kinds of application failure. The taxonomy is deliberately coarse: one
/// kind covers pool exhaustion, statement failure, query failure, and an
/// insert that unexpectedly yields no row.
pub enum AppErrorKind {
    DbError,
}

/// A classified application failure.
pub struct AppError {
    pub kind: AppErrorKind,
    /// Client-safe description; the single source of client-visible text.
    pub message: String,
    /// Underlying cause, for operator logs only. Never sent to a client.
    pub cause: Option<String>,
}

/// Body of every failure response: the classified message and nothing else.
pub struct ErrorResponse {
    pub message: String,
}

/// Message shown for a generic store failure.
pub open spec fn db_error_message() -> Seq<char> {
    "error with the database"@
}

/// Message shown when an insert unexpectedly produced no row.
pub open spec fn insert_error_message() -> Seq<char> {
    "insert produced no result"@
}

impl AppError {
    /// Classify a store-level failure (pool exhaustion or timeout, statement
    /// preparation failure, query or execution failure), keeping the raw
    /// cause aside for diagnostics.
    pub fn db_error(cause: String) -> (e: AppError)
        ensures
            e.kind == AppErrorKind::DbError,
            e.message@ == db_error_message(),
            e.cause == Some(cause),
    {
        AppError {
            kind: AppErrorKind::DbError,
            message: "error with the database".to_owned(),
            cause: Some(cause),
        }
    }

    /// Classify an insert that returned no row. Kept distinct from a generic
    /// store failure so store/driver inconsistencies stay diagnosable apart
    /// from connectivity failures.
    pub fn insert_error() -> (e: AppError)
        ensures
            e.kind == AppErrorKind::DbError,
            e.message@ == insert_error_message(),
            e.cause == None::<String>,
    {
        AppError {
            kind: AppErrorKind::DbError,
            message: "insert produced no result".to_owned(),
            cause: None,
        }
    }

    /// The client-facing representation of this failure: the classified
    /// message alone. The cause never reaches a client.
    pub fn client_body(&self) -> (r: ErrorResponse)
        ensures
            r == (ErrorResponse { message: self.message }),
    {
        ErrorResponse { message: self.message.clone() }
    }
}

} // verus!
