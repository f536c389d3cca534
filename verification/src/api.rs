//! Boundary request and response shapes, and the operation table.
//!
//! Transport-agnostic: a request names an operation and carries decoded
//! plain values; every failure answer shares one shape — status `error`
//! plus a message — so callers detect failure uniformly.

use vstd::prelude::*;
use vstd::string::*;

use crate::errors::{ErrorClass, not_found_message, spec_not_found_message};

verus! {

/// One data point as submitted over the boundary: a series name, an opaque
/// JSON payload (passed through verbatim), and an optional timestamp string.
#[derive(Debug)]
pub struct IngestionRequest {
    pub series: String,
    pub data: String,
    pub date: Option<String>,
}

/// A group of points submitted for ingestion as one atomic unit.
#[derive(Debug)]
pub struct BatchIngestionRequest {
    pub data_points: Vec<IngestionRequest>,
}

/// What the boundary answers: a success shape per operation, or the one
/// uniform failure shape.
#[derive(Debug)]
pub enum ApiResponse {
    /// Status `success`, with the store-assigned id.
    InsertSuccess { id: i32 },
    /// Status `success`, with the count and the assigned ids in input order.
    BatchSuccess { inserted_count: usize, ids: Vec<i32> },
    /// Status `error`, with a classification and a message.
    Failure { class: ErrorClass, error: String },
}

impl ApiResponse {
    /// The uniform `status` field: `success` on either success shape,
    /// `error` on the failure shape.
    pub open spec fn spec_status(&self) -> Seq<char> {
        match self {
            ApiResponse::Failure { .. } => "error"@,
            _ => "success"@,
        }
    }

    /// Builds the `status` field text.
    pub fn status(&self) -> (r: String)
        ensures
            r@ == self.spec_status(),
    {
        match self {
            ApiResponse::Failure { .. } => String::from_str("error"),
            _ => String::from_str("success"),
        }
    }
}

/// A known boundary operation.
#[derive(Clone, Copy, Debug, PartialEq, Eq, Structural)]
pub enum Operation {
    /// Ingest one point.
    InsertOne,
    /// Ingest a batch of points.
    InsertBatch,
}

/// Resolves a requested operation name: `insert` and `insert_batch` are the
/// known operations; every other name resolves to nothing and is answered
/// with the not-found failure.
pub fn lookup_operation(name: &str) -> (r: Option<Operation>)
    ensures
        name@ == "insert"@ ==> r == Some(Operation::InsertOne),
        name@ == "insert_batch"@ ==> r == Some(Operation::InsertBatch),
        name@ != "insert"@ && name@ != "insert_batch"@ ==> r is None,
{
    proof {
        broadcast use vstd::string::group_string_axioms;

        reveal_strlit("insert");
        reveal_strlit("insert_batch");
        assert("insert"@.len() == 6);
        assert("insert_batch"@.len() == 12);
    }
    let n = String::from_str(name);
    if n.eq(&String::from_str("insert")) {
        Some(Operation::InsertOne)
    } else if n.eq(&String::from_str("insert_batch")) {
        Some(Operation::InsertBatch)
    } else {
        None
    }
}

/// The structured answer for a request that names no known operation:
/// classified not-found, with the generic message.
pub fn not_found_response() -> (r: ApiResponse)
    ensures
        r matches ApiResponse::Failure { class, error } && class == ErrorClass::NotFound && error@
            == spec_not_found_message(),
{
    ApiResponse::Failure { class: ErrorClass::NotFound, error: not_found_message() }
}

} // verus!
