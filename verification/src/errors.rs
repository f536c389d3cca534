//! The error taxonomy and the translation of storage-layer failures into it.
//!
//! Storage failures arrive as a small closed set of tagged variants and are
//! classified exactly once, at the transaction boundary: a constraint
//! violation is a client error whose message is the store's own diagnostic,
//! passed through verbatim; a connection-acquisition failure and any other
//! storage failure are server errors with generic messages that leak no
//! internal detail.

use vstd::prelude::*;
use vstd::string::*;

verus! {

/// How a failure is classified towards the caller.
#[derive(Clone, Copy, Debug, PartialEq, Eq, Structural)]
pub enum ErrorClass {
    /// The request itself was at fault (malformed date, bad batch size,
    /// constraint violation).
    ClientError,
    /// The service or its store was at fault (connection acquisition,
    /// unclassified storage failure).
    ServerError,
    /// The request named no known operation.
    NotFound,
}

/// A storage-layer failure, as the closed set of cases the translator
/// distinguishes.
#[derive(Debug)]
pub enum StorageError {
    /// The store rejected a row; `message` is the store's own diagnostic.
    ConstraintViolation { message: String },
    /// No pooled connection could be acquired; `message` is internal detail
    /// that must not reach the caller.
    ConnectionFailure { message: String },
    /// Any other storage failure; `message` is internal detail that must not
    /// reach the caller.
    Other { message: String },
}

/// The message a batch with no points is refused with.
pub open spec fn spec_empty_batch_message() -> Seq<char> {
    "batch cannot be empty"@
}

/// The message an oversized batch is refused with.
pub open spec fn spec_batch_too_large_message() -> Seq<char> {
    "batch size cannot exceed 100 data points"@
}

/// The message an unparseable timestamp string `input` is refused with.
pub open spec fn spec_date_error_message(input: Seq<char>) -> Seq<char> {
    "invalid date format: "@ + input
}

/// The generic message of a connection-acquisition failure; internal
/// connection detail stays out of it.
pub open spec fn spec_connection_failure_message() -> Seq<char> {
    "database connection failed"@
}

/// The generic message of an unclassified storage failure.
pub open spec fn spec_storage_failure_message() -> Seq<char> {
    "internal storage error"@
}

/// The generic message of a request that names no known operation.
pub open spec fn spec_not_found_message() -> Seq<char> {
    "not found"@
}

/// Builds the refusal message for an empty batch.
pub fn empty_batch_message() -> (r: String)
    ensures
        r@ == spec_empty_batch_message(),
{
    String::from_str("batch cannot be empty")
}

/// Builds the refusal message for an oversized batch.
pub fn batch_too_large_message() -> (r: String)
    ensures
        r@ == spec_batch_too_large_message(),
{
    String::from_str("batch size cannot exceed 100 data points")
}

/// Builds the refusal message for an unparseable timestamp string,
/// carrying the original input verbatim.
pub fn date_error_message(input: &str) -> (r: String)
    ensures
        r@ == spec_date_error_message(input@),
{
    let mut out = String::new();
    out.append("invalid date format: ");
    out.append(input);
    proof {
        assert(out@ =~= spec_date_error_message(input@));
    }
    out
}

/// Builds the generic message for a request that names no known operation.
pub fn not_found_message() -> (r: String)
    ensures
        r@ == spec_not_found_message(),
{
    String::from_str("not found")
}

/// The HTTP status code a classification is reported under: client errors
/// as 400, server errors as 500, not-found as 404.
pub fn http_status_of(class: ErrorClass) -> (r: u16)
    ensures
        class == ErrorClass::ClientError ==> r == 400,
        class == ErrorClass::ServerError ==> r == 500,
        class == ErrorClass::NotFound ==> r == 404,
{
    match class {
        ErrorClass::ClientError => 400,
        ErrorClass::ServerError => 500,
        ErrorClass::NotFound => 404,
    }
}

/// Classifies one storage failure, exactly once, at the transaction
/// boundary: a constraint violation is a client error carrying the store's
/// diagnostic verbatim; a connection failure and any other storage failure
/// are server errors with generic messages.
pub fn translate_storage_error(e: &StorageError) -> (r: (ErrorClass, String))
    ensures
        match e {
            StorageError::ConstraintViolation { message } => r.0 == ErrorClass::ClientError
                && r.1@ == message@,
            StorageError::ConnectionFailure { .. } => r.0 == ErrorClass::ServerError && r.1@
                == spec_connection_failure_message(),
            StorageError::Other { .. } => r.0 == ErrorClass::ServerError && r.1@
                == spec_storage_failure_message(),
        },
{
    match e {
        StorageError::ConstraintViolation { message } => (
            ErrorClass::ClientError,
            message.clone(),
        ),
        StorageError::ConnectionFailure { .. } => (
            ErrorClass::ServerError,
            String::from_str("database connection failed"),
        ),
        StorageError::Other { .. } => (
            ErrorClass::ServerError,
            String::from_str("internal storage error"),
        ),
    }
}

} // verus!
