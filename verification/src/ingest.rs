//! The ingestion coordinator: request normalization, the single-point and
//! batch transactions against the store, and the laws the pipeline obeys.
//!
//! Control flow per request: every point's timestamp is normalized first;
//! batch requests then pass the batch policy; only then does a transaction
//! open — one (bulk) insert, one view (re)definition per distinct series
//! among the accepted rows, commit.  A failure at any stage after
//! normalization aborts the whole transaction: partial effects never
//! persist.

use vstd::prelude::*;
use vstd::string::*;

use crate::api::{ApiResponse, IngestionRequest};
use crate::dates::{
    DateParseError, current_time_millis, normalize_timestamp, spec_normalize, spec_parse_timestamp,
};
use crate::errors::{
    ErrorClass, batch_too_large_message, date_error_message, empty_batch_message,
    spec_batch_too_large_message, spec_date_error_message, spec_empty_batch_message,
    translate_storage_error,
};
use crate::models::{NewTsData, TsData, row_from_new};
use crate::policy::{BatchError, MAX_BATCH_SIZE, validate_batch_size};
use crate::series::{ValidatedSeries, is_valid_series_name};
use crate::store::{Store, spec_constraint_violation_message};

verus! {

/// Whether `p` is the normalized form of `req` at instant `now_millis`:
/// series and payload verbatim, event time the normalization result.
pub open spec fn point_from_request(p: NewTsData, req: IngestionRequest, now_millis: i64) -> bool {
    &&& p.series_name@ == req.series@
    &&& p.contents@ == req.data@
    &&& spec_normalize(req.date, now_millis) == Some(p.data_time)
}

/// Whether every point of `reqs` has a normalizable timestamp at
/// `now_millis`.
pub open spec fn spec_all_dates_ok(reqs: Seq<IngestionRequest>, now_millis: i64) -> bool {
    forall|j: int|
        0 <= j < reqs.len() ==> spec_normalize((#[trigger] reqs[j]).date, now_millis) is Some
}

/// Whether `i` is the first point of `reqs` whose timestamp fails to
/// normalize at `now_millis`.
pub open spec fn spec_first_bad_date(
    reqs: Seq<IngestionRequest>,
    now_millis: i64,
    i: int,
) -> bool {
    &&& 0 <= i < reqs.len()
    &&& spec_normalize(reqs[i].date, now_millis) is None
    &&& forall|j: int|
        0 <= j < i ==> spec_normalize((#[trigger] reqs[j]).date, now_millis) is Some
}

/// Whether some point of `points` carries the series name `s`.
pub open spec fn spec_series_present(points: Seq<NewTsData>, s: Seq<char>) -> bool {
    exists|j: int| 0 <= j < points.len() && (#[trigger] points[j]).series_name@ == s
}

/// Whether some request of `reqs` carries the series name `s`.
pub open spec fn spec_req_series_present(reqs: Seq<IngestionRequest>, s: Seq<char>) -> bool {
    exists|j: int| 0 <= j < reqs.len() && (#[trigger] reqs[j]).series@ == s
}

/// Whether `s` occurs among the first `k` of `names`.
pub open spec fn spec_name_listed_prefix(names: Seq<String>, k: int, s: Seq<char>) -> bool {
    exists|m: int| 0 <= m < k && (#[trigger] names[m])@ == s
}

/// Whether `s` occurs in `names`.
pub open spec fn spec_name_listed(names: Seq<String>, s: Seq<char>) -> bool {
    spec_name_listed_prefix(names, names.len() as int, s)
}

/// Normalizes one boundary point: the series name and payload pass through
/// verbatim, the optional timestamp resolves against `now_millis`; an
/// unparseable timestamp fails, carrying the original string.
pub fn normalize_request(req: &IngestionRequest, now_millis: i64) -> (r: Result<
    NewTsData,
    DateParseError,
>)
    ensures
        match r {
            Result::Ok(p) => point_from_request(p, *req, now_millis),
            Result::Err(e) => {
                &&& spec_normalize(req.date, now_millis) is None
                &&& req.date matches Some(s) && e.input@ == s@
            },
        },
{
    match normalize_timestamp(&req.date, now_millis) {
        Ok(data_time) => Ok(
            NewTsData {
                data_time,
                series_name: req.series.clone(),
                contents: req.data.clone(),
            },
        ),
        Err(e) => Err(e),
    }
}

/// Normalizes every point of a batch, in order; the first point whose
/// timestamp no format accepts fails the whole batch, carrying that point's
/// original string.
pub fn normalize_batch(reqs: &Vec<IngestionRequest>, now_millis: i64) -> (r: Result<
    Vec<NewTsData>,
    DateParseError,
>)
    ensures
        match r {
            Result::Ok(points) => {
                &&& spec_all_dates_ok(reqs@, now_millis)
                &&& points@.len() == reqs@.len()
                &&& forall|j: int|
                    0 <= j < reqs@.len() ==> point_from_request(
                        #[trigger] points@[j],
                        reqs@[j],
                        now_millis,
                    )
            },
            Result::Err(e) => exists|i: int|
                {
                    &&& #[trigger] spec_first_bad_date(reqs@, now_millis, i)
                    &&& reqs@[i].date matches Some(s) && e.input@ == s@
                },
        },
{
    let mut points: Vec<NewTsData> = Vec::new();
    let mut j: usize = 0;
    while j < reqs.len()
        invariant
            0 <= j <= reqs@.len(),
            points@.len() == j,
            forall|k: int|
                0 <= k < j ==> point_from_request(#[trigger] points@[k], reqs@[k], now_millis),
        decreases reqs@.len() - j,
    {
        match normalize_request(&reqs[j], now_millis) {
            Ok(p) => {
                points.push(p);
            },
            Err(e) => {
                proof {
                    assert(spec_first_bad_date(reqs@, now_millis, j as int)) by {
                        assert forall|k: int|
                            0 <= k < j implies spec_normalize(
                            (#[trigger] reqs@[k]).date,
                            now_millis,
                        ) is Some by {
                            assert(point_from_request(points@[k], reqs@[k], now_millis));
                        }
                    }
                }
                return Err(e);
            },
        }
        j = j + 1;
    }
    proof {
        assert forall|k: int|
            0 <= k < reqs@.len() implies spec_normalize(
            (#[trigger] reqs@[k]).date,
            now_millis,
        ) is Some by {
            assert(point_from_request(points@[k], reqs@[k], now_millis));
        }
    }
    Ok(points)
}

/// Whether `names` holds the string `s`.
fn contains_name(names: &Vec<String>, s: &String) -> (r: bool)
    ensures
        r == spec_name_listed(names@, s@),
{
    let mut m: usize = 0;
    while m < names.len()
        invariant
            0 <= m <= names@.len(),
            forall|k: int| 0 <= k < m ==> (#[trigger] names@[k])@ != s@,
        decreases names@.len() - m,
    {
        if names[m].eq(s) {
            proof {
                assert(spec_name_listed(names@, s@)) by {
                    assert((names@[m as int])@ == s@);
                }
            }
            return true;
        }
        m = m + 1;
    }
    false
}

/// The distinct series names among `points`, each exactly once, in order of
/// first occurrence.  For a batch covering `k` distinct series the view
/// step runs exactly `k` times — once per name listed here.
pub fn distinct_series(points: &Vec<NewTsData>) -> (r: Vec<String>)
    ensures
        forall|a: int, b: int|
            0 <= a < r@.len() && 0 <= b < r@.len() && a != b ==> (#[trigger] r@[a])@ != (
            #[trigger] r@[b])@,
        forall|k: int| 0 <= k < r@.len() ==> spec_series_present(points@, (#[trigger] r@[k])@),
        forall|j: int|
            0 <= j < points@.len() ==> spec_name_listed(r@, (#[trigger] points@[j]).series_name@),
{
    let mut names: Vec<String> = Vec::new();
    let mut j: usize = 0;
    while j < points.len()
        invariant
            0 <= j <= points@.len(),
            forall|a: int, b: int|
                0 <= a < names@.len() && 0 <= b < names@.len() && a != b ==> (#[trigger] names@[a])@
                    != (#[trigger] names@[b])@,
            forall|k: int|
                0 <= k < names@.len() ==> spec_series_present(points@, (#[trigger] names@[k])@),
            forall|i: int|
                0 <= i < j ==> spec_name_listed(names@, (#[trigger] points@[i]).series_name@),
        decreases points@.len() - j,
    {
        let ghost names_before = names@;
        if !contains_name(&names, &points[j].series_name) {
            names.push(points[j].series_name.clone());
            proof {
                assert forall|i: int|
                    0 <= i < j + 1 implies spec_name_listed(
                    names@,
                    (#[trigger] points@[i]).series_name@,
                ) by {
                    if i < j {
                        let m = choose|m: int|
                            0 <= m < names_before.len() && (#[trigger] names_before[m])@
                                == points@[i].series_name@;
                        assert((names@[m])@ == points@[i].series_name@);
                    } else {
                        assert((names@[names@.len() - 1])@ == points@[i].series_name@);
                    }
                }
                assert(spec_series_present(points@, (names@[names@.len() - 1])@)) by {
                    assert((points@[j as int]).series_name@ == (names@[names@.len() - 1])@);
                }
            }
        }
        j = j + 1;
    }
    names
}

/// Whether `row` is the persisted form of the boundary point `req`: the
/// given id and ingestion time, the normalized event time, and the series
/// name and payload verbatim.
pub open spec fn row_for_request(
    row: TsData,
    id: int,
    inserted_time: int,
    req: IngestionRequest,
    now_millis: i64,
) -> bool {
    &&& row.id as int == id
    &&& row.inserted_time as int == inserted_time
    &&& spec_normalize(req.date, now_millis) == Some(row.data_time)
    &&& row.series_name@ == req.series@
    &&& row.contents@ == req.data@
}

/// The store kept both its base relation and its view registry: nothing was
/// stored, no view was created or altered.
pub open spec fn spec_store_unchanged(pre: Store, post: Store) -> bool {
    &&& post.rows() == pre.rows()
    &&& forall|s: Seq<char>| #[trigger] post.has_view(s) == pre.has_view(s)
}

/// The single-point transaction committed: the point stands appended under
/// the next id, and exactly its series gained (or kept) a view.
pub open spec fn spec_inserted_one(
    pre: Store,
    req: IngestionRequest,
    now_millis: i64,
    post: Store,
    id: i32,
) -> bool {
    &&& id as int == pre.next_id()
    &&& post.rows().len() == pre.rows().len() + 1
    &&& post.rows().drop_last() == pre.rows()
    &&& row_for_request(post.rows().last(), pre.next_id(), now_millis as int, req, now_millis)
    &&& forall|s: Seq<char>| #[trigger] post.has_view(s) == (pre.has_view(s) || s == req.series@)
}

/// The whole single-point pipeline at instant `now_millis`: an unparseable
/// timestamp is a client error carrying the original string; a series name
/// the store's constraint rejects is a client error carrying the store's
/// diagnostic verbatim; otherwise the transaction commits.  On every
/// failure the store is untouched.
pub open spec fn spec_ingest_one(
    pre: Store,
    req: IngestionRequest,
    now_millis: i64,
    post: Store,
    r: ApiResponse,
) -> bool {
    if spec_normalize(req.date, now_millis) is None {
        &&& spec_store_unchanged(pre, post)
        &&& r matches ApiResponse::Failure { class, error } && class == ErrorClass::ClientError && (
        req.date matches Some(s) && error@ == spec_date_error_message(s@))
    } else if !is_valid_series_name(req.series@) {
        &&& spec_store_unchanged(pre, post)
        &&& r matches ApiResponse::Failure { class, error } && class == ErrorClass::ClientError
            && error@ == spec_constraint_violation_message()
    } else {
        r matches ApiResponse::InsertSuccess { id } && spec_inserted_one(
            pre,
            req,
            now_millis,
            post,
            id,
        )
    }
}

/// Ingests one point at instant `now_millis`: normalize, open the
/// transaction, insert the row, (re)define its series' view, commit.  Any
/// failure aborts the whole transaction and is classified exactly once.
pub fn ingest_one_at(store: &mut Store, req: &IngestionRequest, now_millis: i64) -> (r:
    ApiResponse)
    requires
        old(store).wf(),
        old(store).rows().len() + 1 < 0x7fff_ffff,
    ensures
        final(store).wf(),
        spec_ingest_one(*old(store), *req, now_millis, *final(store), r),
{
    let p = match normalize_request(req, now_millis) {
        Ok(p) => p,
        Err(e) => {
            return ApiResponse::Failure {
                class: ErrorClass::ClientError,
                error: date_error_message(e.input.as_str()),
            };
        },
    };
    match store.insert_row(&p, now_millis) {
        Err(e) => {
            let (class, error) = translate_storage_error(&e);
            ApiResponse::Failure { class, error }
        },
        Ok((id, vs)) => {
            store.create_series_view(&vs);
            proof {
                let pre = *old(store);
                assert forall|i: int| 0 <= i < store.rows().len() implies store.has_view(
                    (#[trigger] store.rows()[i]).series_name@,
                ) by {
                    if i < pre.rows().len() {
                        assert(store.rows()[i] == pre.rows()[i]);
                        assert(pre.has_view(pre.rows()[i].series_name@));
                    } else {
                        assert(store.rows()[i].series_name@ == req.series@);
                    }
                }
            }
            ApiResponse::InsertSuccess { id }
        },
    }
}

/// The batch transaction committed: every point stands appended, in input
/// order, under consecutive ids starting at the next id, and exactly the
/// series present in the batch gained (or kept) views.
pub open spec fn spec_batch_inserted(
    pre: Store,
    reqs: Seq<IngestionRequest>,
    now_millis: i64,
    post: Store,
    ids: Seq<i32>,
) -> bool {
    &&& ids.len() == reqs.len()
    &&& forall|j: int| 0 <= j < ids.len() ==> (#[trigger] ids[j]) as int == pre.next_id() + j
    &&& post.rows().len() == pre.rows().len() + reqs.len()
    &&& post.rows().subrange(0, pre.rows().len() as int) == pre.rows()
    &&& forall|j: int|
        0 <= j < reqs.len() ==> row_for_request(
            #[trigger] post.rows()[pre.rows().len() + j],
            pre.next_id() + j,
            now_millis as int,
            reqs[j],
            now_millis,
        )
    &&& forall|s: Seq<char>|
        #[trigger] post.has_view(s) == (pre.has_view(s) || spec_req_series_present(reqs, s))
}

/// The whole batch pipeline at instant `now_millis`, the stages in order:
/// every timestamp normalizes (the first failure decides, carrying its
/// original string); the batch policy admits the size; the store accepts
/// every series name (else its diagnostic passes through verbatim);
/// then the transaction commits.  On every failure the store is untouched —
/// the rows of a refused batch share their fate.
pub open spec fn spec_ingest_batch(
    pre: Store,
    reqs: Seq<IngestionRequest>,
    now_millis: i64,
    post: Store,
    r: ApiResponse,
) -> bool {
    if !spec_all_dates_ok(reqs, now_millis) {
        &&& spec_store_unchanged(pre, post)
        &&& r matches ApiResponse::Failure { class, error } && class == ErrorClass::ClientError
            && exists|i: int|
            {
                &&& #[trigger] spec_first_bad_date(reqs, now_millis, i)
                &&& reqs[i].date matches Some(s) && error@ == spec_date_error_message(s@)
            }
    } else if reqs.len() == 0 {
        &&& spec_store_unchanged(pre, post)
        &&& r matches ApiResponse::Failure { class, error } && class == ErrorClass::ClientError
            && error@ == spec_empty_batch_message()
    } else if reqs.len() > MAX_BATCH_SIZE as int {
        &&& spec_store_unchanged(pre, post)
        &&& r matches ApiResponse::Failure { class, error } && class == ErrorClass::ClientError
            && error@ == spec_batch_too_large_message()
    } else if exists|j: int|
        0 <= j < reqs.len() && !is_valid_series_name((#[trigger] reqs[j]).series@) {
        &&& spec_store_unchanged(pre, post)
        &&& r matches ApiResponse::Failure { class, error } && class == ErrorClass::ClientError
            && error@ == spec_constraint_violation_message()
    } else {
        r matches ApiResponse::BatchSuccess { inserted_count, ids } && inserted_count as int
            == reqs.len() as int && spec_batch_inserted(pre, reqs, now_millis, post, ids@)
    }
}

/// Ingests a batch of points at instant `now_millis`: normalize every
/// point, admit the size, open one transaction, bulk-insert all rows,
/// (re)define the view of each distinct series exactly once, commit.  Any
/// failure aborts the whole transaction: zero rows of a failed batch are
/// durably visible.
#[verifier::loop_isolation(false)]
pub fn ingest_batch_at(store: &mut Store, reqs: &Vec<IngestionRequest>, now_millis: i64) -> (r:
    ApiResponse)
    requires
        old(store).wf(),
        old(store).rows().len() + reqs@.len() < 0x7fff_ffff,
    ensures
        final(store).wf(),
        spec_ingest_batch(*old(store), reqs@, now_millis, *final(store), r),
{
    let points = match normalize_batch(reqs, now_millis) {
        Ok(points) => points,
        Err(e) => {
            proof {
                let i = choose|i: int|
                    #[trigger] spec_first_bad_date(reqs@, now_millis, i) && (
                    reqs@[i].date matches Some(s) && e.input@ == s@);
                assert(!spec_all_dates_ok(reqs@, now_millis)) by {
                    assert(spec_normalize(reqs@[i].date, now_millis) is None);
                }
            }
            return ApiResponse::Failure {
                class: ErrorClass::ClientError,
                error: date_error_message(e.input.as_str()),
            };
        },
    };
    match validate_batch_size(points.len()) {
        Err(BatchError::Empty) => {
            return ApiResponse::Failure {
                class: ErrorClass::ClientError,
                error: empty_batch_message(),
            };
        },
        Err(BatchError::TooLarge) => {
            return ApiResponse::Failure {
                class: ErrorClass::ClientError,
                error: batch_too_large_message(),
            };
        },
        Ok(()) => {},
    }
    let ids = match store.bulk_insert(&points, now_millis) {
        Err(e) => {
            let (class, error) = translate_storage_error(&e);
            proof {
                let j = choose|j: int|
                    0 <= j < points@.len() && !is_valid_series_name(
                        (#[trigger] points@[j]).series_name@,
                    );
                assert(points@[j].series_name@ == reqs@[j].series@);
                assert(!is_valid_series_name((reqs@[j]).series@));
            }
            return ApiResponse::Failure { class, error };
        },
        Ok(ids) => ids,
    };
    let ghost pre = *old(store);
    let ghost mid = *store;
    let names = distinct_series(&points);
    let mut k: usize = 0;
    while k < names.len()
        invariant
            0 <= k <= names@.len(),
            store.base_wf(),
            store.rows() == mid.rows(),
            forall|s: Seq<char>| #[trigger] store.has_row_for(s) == mid.has_row_for(s),
            forall|s: Seq<char>|
                #[trigger] store.has_view(s) == (mid.has_view(s) || spec_name_listed_prefix(
                    names@,
                    k as int,
                    s,
                )),
        decreases names@.len() - k,
    {
        proof {
            let j = choose|j: int|
                0 <= j < points@.len() && (#[trigger] points@[j]).series_name@ == (names@[k as int])@;
            assert(is_valid_series_name(points@[j].series_name@));
            assert(mid.has_row_for(points@[j].series_name@));
        }
        let vs = ValidatedSeries::new(names[k].clone());
        store.create_series_view(&vs);
        proof {
            assert forall|s: Seq<char>| #[trigger] store.has_view(s) == (mid.has_view(s)
                || spec_name_listed_prefix(names@, k as int + 1, s)) by {
                if spec_name_listed_prefix(names@, k as int + 1, s) {
                    let m = choose|m: int| 0 <= m < k as int + 1 && (#[trigger] names@[m])@ == s;
                    if m < k as int {
                        assert(spec_name_listed_prefix(names@, k as int, s)) by {
                            assert(0 <= m < k as int && (names@[m])@ == s);
                        }
                    }
                }
                if spec_name_listed_prefix(names@, k as int, s) {
                    let m = choose|m: int| 0 <= m < k as int && (#[trigger] names@[m])@ == s;
                    assert(spec_name_listed_prefix(names@, k as int + 1, s)) by {
                        assert(0 <= m < k as int + 1 && (names@[m])@ == s);
                    }
                }
            }
        }
        k = k + 1;
    }
    proof {
        assert forall|j: int| 0 <= j < reqs@.len() implies is_valid_series_name(
            (#[trigger] reqs@[j]).series@,
        ) by {
            assert(point_from_request(points@[j], reqs@[j], now_millis));
            assert(is_valid_series_name(points@[j].series_name@));
        }
        assert forall|j: int| 0 <= j < reqs@.len() implies row_for_request(
            #[trigger] store.rows()[pre.rows().len() + j],
            pre.next_id() + j,
            now_millis as int,
            reqs@[j],
            now_millis,
        ) by {
            assert(row_from_new(
                mid.rows()[pre.rows().len() + j],
                pre.next_id() + j,
                now_millis as int,
                points@[j],
            ));
            assert(point_from_request(points@[j], reqs@[j], now_millis));
            assert(store.rows()[pre.rows().len() + j] == mid.rows()[pre.rows().len() + j]);
        }
        assert forall|i: int| 0 <= i < store.rows().len() implies store.has_view(
            (#[trigger] store.rows()[i]).series_name@,
        ) by {
            if i < pre.rows().len() {
                assert(store.rows()[i] == pre.rows()[i]);
                assert(pre.has_view(pre.rows()[i].series_name@));
            } else {
                let d = i - pre.rows().len();
                assert(row_from_new(
                    mid.rows()[pre.rows().len() + d],
                    pre.next_id() + d,
                    now_millis as int,
                    points@[d],
                ));
                assert(store.rows()[i] == mid.rows()[pre.rows().len() + d]);
                assert(spec_name_listed(names@, points@[d].series_name@));
            }
        }
        assert forall|s: Seq<char>| #[trigger] store.has_view(s) == (pre.has_view(s)
            || spec_req_series_present(reqs@, s)) by {
            if spec_name_listed_prefix(names@, names@.len() as int, s) {
                let m = choose|m: int|
                    0 <= m < names@.len() && (#[trigger] names@[m])@ == s;
                let j = choose|j: int|
                    0 <= j < points@.len() && (#[trigger] points@[j]).series_name@ == s;
                assert(points@[j].series_name@ == reqs@[j].series@);
                assert(spec_req_series_present(reqs@, s)) by {
                    assert(0 <= j < reqs@.len() && (reqs@[j]).series@ == s);
                }
            }
            if spec_req_series_present(reqs@, s) {
                let j = choose|j: int| 0 <= j < reqs@.len() && (#[trigger] reqs@[j]).series@ == s;
                assert(points@[j].series_name@ == s);
                assert(spec_name_listed(names@, points@[j].series_name@));
            }
        }
    }
    ApiResponse::BatchSuccess { inserted_count: ids.len(), ids }
}

/// Ingests one point against the current wall-clock time: the clock decides
/// only the ingestion time and the default for an absent timestamp; at
/// whatever instant the clock read, the single-point contract holds.
pub fn ingest_one(store: &mut Store, req: &IngestionRequest) -> (r: ApiResponse)
    requires
        old(store).wf(),
        old(store).rows().len() + 1 < 0x7fff_ffff,
    ensures
        final(store).wf(),
        exists|now_millis: i64|
            #[trigger] spec_ingest_one(*old(store), *req, now_millis, *final(store), r),
{
    let now_millis = current_time_millis();
    ingest_one_at(store, req, now_millis)
}

/// Ingests a batch against the current wall-clock time: at whatever instant
/// the clock read, the batch contract holds.
pub fn ingest_batch(store: &mut Store, reqs: &Vec<IngestionRequest>) -> (r: ApiResponse)
    requires
        old(store).wf(),
        old(store).rows().len() + reqs@.len() < 0x7fff_ffff,
    ensures
        final(store).wf(),
        exists|now_millis: i64|
            #[trigger] spec_ingest_batch(*old(store), reqs@, now_millis, *final(store), r),
{
    let now_millis = current_time_millis();
    ingest_batch_at(store, reqs, now_millis)
}

/// Law: successful sequential single-point ingestions assign strictly
/// increasing ids — a later commit's id always exceeds an earlier one's.
pub proof fn lemma_sequential_ids_increase(
    s0: Store,
    req1: IngestionRequest,
    t1: i64,
    s1: Store,
    id1: i32,
    req2: IngestionRequest,
    t2: i64,
    s2: Store,
    id2: i32,
)
    requires
        spec_inserted_one(s0, req1, t1, s1, id1),
        spec_inserted_one(s1, req2, t2, s2, id2),
    ensures
        id2 > id1,
{
}

/// Law: a present but unparseable timestamp string always fails the request
/// as a client error carrying that string — it never silently defaults, and
/// nothing is stored.
pub proof fn lemma_unparseable_date_never_defaults(
    pre: Store,
    req: IngestionRequest,
    now_millis: i64,
    post: Store,
    r: ApiResponse,
)
    requires
        spec_ingest_one(pre, req, now_millis, post, r),
        req.date matches Some(s) && spec_parse_timestamp(s@) is None,
    ensures
        post.rows() == pre.rows(),
        forall|s: Seq<char>| #[trigger] post.has_view(s) == pre.has_view(s),
        r matches ApiResponse::Failure { class, error } && class == ErrorClass::ClientError && (
        req.date matches Some(s) && error@ == spec_date_error_message(s@)),
{
}

/// Law: a batch is atomic — when an otherwise-acceptable batch carries a
/// point whose series name violates the store's constraint, the whole batch
/// fails as one: no row of it is stored and no view is created or altered.
pub proof fn lemma_batch_constraint_violation_atomic(
    pre: Store,
    reqs: Seq<IngestionRequest>,
    now_millis: i64,
    post: Store,
    r: ApiResponse,
)
    requires
        spec_ingest_batch(pre, reqs, now_millis, post, r),
        spec_all_dates_ok(reqs, now_millis),
        1 <= reqs.len() <= MAX_BATCH_SIZE as int,
        exists|j: int| 0 <= j < reqs.len() && !is_valid_series_name((#[trigger] reqs[j]).series@),
    ensures
        post.rows() == pre.rows(),
        forall|s: Seq<char>| #[trigger] post.has_view(s) == pre.has_view(s),
        r matches ApiResponse::Failure { class, error } && class == ErrorClass::ClientError
            && error@ == spec_constraint_violation_message(),
{
}

/// Law: after a successful single-point ingestion for a series, a view
/// scoped to that series exists, and its contents equal exactly the stored
/// points carrying that series — the prior contents plus the new row.
pub proof fn lemma_view_after_single_insert(
    pre: Store,
    req: IngestionRequest,
    now_millis: i64,
    post: Store,
    id: i32,
)
    requires
        spec_inserted_one(pre, req, now_millis, post, id),
    ensures
        post.has_view(req.series@),
        post.view_contents(req.series@) == pre.view_contents(req.series@).push(
            post.rows().last(),
        ),
{
    reveal_with_fuel(Seq::<_>::filter, 2);
    assert(post.rows().drop_last() == pre.rows());
    assert(post.rows().len() != 0);
    assert(post.rows().last().series_name@ == req.series@);
}

/// Law: after a successful batch ingestion, every series present in the
/// batch has a view, and every freshly stored row shows up in its series'
/// view — whose contents are, by [`Store::view_contents`]' definition,
/// exactly the stored points carrying that series.
pub proof fn lemma_views_after_batch(
    pre: Store,
    reqs: Seq<IngestionRequest>,
    now_millis: i64,
    post: Store,
    ids: Seq<i32>,
)
    requires
        spec_batch_inserted(pre, reqs, now_millis, post, ids),
    ensures
        forall|j: int| 0 <= j < reqs.len() ==> post.has_view((#[trigger] reqs[j]).series@),
        forall|j: int|
            0 <= j < reqs.len() ==> post.view_contents((#[trigger] reqs[j]).series@).contains(
                post.rows()[pre.rows().len() + j],
            ),
{
    broadcast use vstd::seq_lib::group_filter_ensures;

    assert forall|j: int| 0 <= j < reqs.len() implies post.has_view(
        (#[trigger] reqs[j]).series@,
    ) by {
        assert(spec_req_series_present(reqs, reqs[j].series@)) by {
            assert(0 <= j < reqs.len() && (reqs[j]).series@ == reqs[j].series@);
        }
    }
    assert forall|j: int| 0 <= j < reqs.len() implies post.view_contents(
        (#[trigger] reqs[j]).series@,
    ).contains(post.rows()[pre.rows().len() + j]) by {
        assert(row_for_request(
            post.rows()[pre.rows().len() + j],
            pre.next_id() + j,
            now_millis as int,
            reqs[j],
            now_millis,
        ));
    }
}

} // verus!
