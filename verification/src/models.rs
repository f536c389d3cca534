//! The persisted row shape and the to-insert row shape.
//!
//! Times are UTC instants in milliseconds since the Unix epoch; the payload
//! is an opaque JSON text, passed through verbatim and never inspected.

use vstd::prelude::*;

verus! {

/// One persisted data point, as the store holds it: a store-assigned id and
/// ingestion time, the caller-supplied (or defaulted) event time, the series
/// name, and the opaque payload.
#[derive(Debug)]
pub struct TsData {
    pub id: i32,
    pub inserted_time: i64,
    pub data_time: i64,
    pub series_name: String,
    pub contents: String,
}

/// One data point as handed to the store for insertion: everything of
/// [`TsData`] that the store does not assign itself.
#[derive(Debug)]
pub struct NewTsData {
    pub data_time: i64,
    pub series_name: String,
    pub contents: String,
}

/// Whether `row` is exactly the persisted form of `p`: the given id and
/// ingestion time, and `p`'s event time, series name and payload verbatim.
pub open spec fn row_from_new(row: TsData, id: int, inserted_time: int, p: NewTsData) -> bool {
    &&& row.id as int == id
    &&& row.inserted_time as int == inserted_time
    &&& row.data_time == p.data_time
    &&& row.series_name@ == p.series_name@
    &&& row.contents@ == p.contents@
}

} // verus!
