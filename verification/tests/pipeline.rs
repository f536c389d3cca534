use tsdata_ingest::api::{
    ApiResponse, BatchIngestionRequest, IngestionRequest, Operation, lookup_operation,
    not_found_response,
};
use tsdata_ingest::errors::ErrorClass;
use tsdata_ingest::ingest::{distinct_series, ingest_batch_at, ingest_one, ingest_one_at, normalize_batch};
use tsdata_ingest::store::{Store, constraint_violation_message};

const UTC_2024_01_15_10_30: i64 = 1_705_314_600_000;
const NOW: i64 = 1_700_000_000_000;

fn point(series: &str, date: Option<&str>, data: &str) -> IngestionRequest {
    IngestionRequest {
        series: series.to_string(),
        data: data.to_string(),
        date: date.map(|d| d.to_string()),
    }
}

#[test]
fn single_insert_with_date_succeeds() {
    let mut store = Store::new();
    let req = point("abc_123", Some("2024-01-15T10:30:00Z"), "{\"k\":1}");
    match ingest_one_at(&mut store, &req, NOW) {
        ApiResponse::InsertSuccess { id } => assert_eq!(id, 1),
        _ => panic!("expected success"),
    }
    assert_eq!(store.row_count(), 1);
    let row = store.get_row(0);
    assert_eq!(row.id, 1);
    assert_eq!(row.inserted_time, NOW);
    assert_eq!(row.data_time, UTC_2024_01_15_10_30);
    assert_eq!(row.series_name, "abc_123");
    assert_eq!(row.contents, "{\"k\":1}");
    assert!(store.has_view_for(&"abc_123".to_string()));
}

#[test]
fn single_insert_without_date_stores_wall_clock() {
    let mut store = Store::new();
    let req = point("abc_123", None, "{}");
    let before = chrono::Utc::now().timestamp_millis();
    match ingest_one(&mut store, &req) {
        ApiResponse::InsertSuccess { id } => assert_eq!(id, 1),
        _ => panic!("expected success"),
    }
    let after = chrono::Utc::now().timestamp_millis();
    let row = store.get_row(0);
    assert!(before <= row.data_time && row.data_time <= after);
}

#[test]
fn invalid_series_fails_with_store_diagnostic() {
    let mut store = Store::new();
    let req = point("invalid-format", None, "{}");
    match ingest_one_at(&mut store, &req, NOW) {
        ApiResponse::Failure { class, error } => {
            assert_eq!(class, ErrorClass::ClientError);
            assert_eq!(error, constraint_violation_message());
        },
        _ => panic!("expected failure"),
    }
    assert_eq!(store.row_count(), 0);
    assert!(!store.has_view_for(&"invalid-format".to_string()));
}

#[test]
fn unparseable_date_fails_never_defaults() {
    let mut store = Store::new();
    let req = point("abc_123", Some("garbage"), "{}");
    match ingest_one_at(&mut store, &req, NOW) {
        ApiResponse::Failure { class, error } => {
            assert_eq!(class, ErrorClass::ClientError);
            assert_eq!(error, "invalid date format: garbage");
        },
        _ => panic!("expected failure"),
    }
    assert_eq!(store.row_count(), 0);
}

#[test]
fn sequential_single_inserts_yield_increasing_ids() {
    let mut store = Store::new();
    let mut last = 0;
    for k in 0..3 {
        let req = point("abc_123", None, &format!("{{\"k\":{}}}", k));
        match ingest_one_at(&mut store, &req, NOW + k) {
            ApiResponse::InsertSuccess { id } => {
                assert!(id > last);
                last = id;
            },
            _ => panic!("expected success"),
        }
    }
    assert_eq!(last, 3);
}

#[test]
fn batch_of_two_succeeds_with_ordered_ids() {
    let mut store = Store::new();
    let batch = BatchIngestionRequest {
        data_points: vec![
            point("s1", Some("2024-01-15T10:30:00Z"), "{\"n\":1}"),
            point("s1", Some("2024-01-15T11:30:00Z"), "{\"n\":2}"),
        ],
    };
    match ingest_batch_at(&mut store, &batch.data_points, NOW) {
        ApiResponse::BatchSuccess { inserted_count, ids } => {
            assert_eq!(inserted_count, 2);
            assert_eq!(ids, vec![1, 2]);
        },
        _ => panic!("expected success"),
    }
    assert_eq!(store.row_count(), 2);
    assert!(store.has_view_for(&"s1".to_string()));
}

#[test]
fn batch_views_are_defined_once_per_distinct_series() {
    let reqs = vec![
        point("s1", None, "{}"),
        point("s1", None, "{}"),
        point("s2", None, "{}"),
    ];
    let points = normalize_batch(&reqs, NOW).unwrap();
    let names = distinct_series(&points);
    assert_eq!(names, vec!["s1".to_string(), "s2".to_string()]);
}

#[test]
fn empty_batch_is_refused_before_storage() {
    let mut store = Store::new();
    let reqs: Vec<IngestionRequest> = vec![];
    match ingest_batch_at(&mut store, &reqs, NOW) {
        ApiResponse::Failure { class, error } => {
            assert_eq!(class, ErrorClass::ClientError);
            assert_eq!(error, "batch cannot be empty");
        },
        _ => panic!("expected failure"),
    }
    assert_eq!(store.row_count(), 0);
}

#[test]
fn batch_of_101_is_refused_and_stores_nothing() {
    let mut store = Store::new();
    let mut reqs = Vec::new();
    for _ in 0..101 {
        reqs.push(point("abc_123", None, "{}"));
    }
    match ingest_batch_at(&mut store, &reqs, NOW) {
        ApiResponse::Failure { class, error } => {
            assert_eq!(class, ErrorClass::ClientError);
            assert_eq!(error, "batch size cannot exceed 100 data points");
        },
        _ => panic!("expected failure"),
    }
    assert_eq!(store.row_count(), 0);
}

#[test]
fn batch_of_100_is_accepted() {
    let mut store = Store::new();
    let mut reqs = Vec::new();
    for _ in 0..100 {
        reqs.push(point("abc_123", None, "{}"));
    }
    match ingest_batch_at(&mut store, &reqs, NOW) {
        ApiResponse::BatchSuccess { inserted_count, ids } => {
            assert_eq!(inserted_count, 100);
            assert_eq!(ids.len(), 100);
        },
        _ => panic!("expected success"),
    }
    assert_eq!(store.row_count(), 100);
}

#[test]
fn batch_with_one_bad_series_is_atomic() {
    let mut store = Store::new();
    let reqs = vec![
        point("good_series", None, "{}"),
        point("bad-series", None, "{}"),
        point("another_good", None, "{}"),
    ];
    match ingest_batch_at(&mut store, &reqs, NOW) {
        ApiResponse::Failure { class, error } => {
            assert_eq!(class, ErrorClass::ClientError);
            assert_eq!(error, constraint_violation_message());
        },
        _ => panic!("expected failure"),
    }
    assert_eq!(store.row_count(), 0);
    assert!(!store.has_view_for(&"good_series".to_string()));
    assert!(!store.has_view_for(&"bad-series".to_string()));
    assert!(!store.has_view_for(&"another_good".to_string()));
}

#[test]
fn batch_bad_date_fails_whole_batch() {
    let mut store = Store::new();
    let reqs = vec![
        point("s1", Some("2024-01-15"), "{}"),
        point("s1", Some("yesterday"), "{}"),
    ];
    match ingest_batch_at(&mut store, &reqs, NOW) {
        ApiResponse::Failure { class, error } => {
            assert_eq!(class, ErrorClass::ClientError);
            assert_eq!(error, "invalid date format: yesterday");
        },
        _ => panic!("expected failure"),
    }
    assert_eq!(store.row_count(), 0);
}

#[test]
fn view_tracks_only_its_series() {
    let mut store = Store::new();
    let r1 = point("series_a", None, "{\"v\":1}");
    let r2 = point("series_b", None, "{\"v\":2}");
    ingest_one_at(&mut store, &r1, NOW);
    ingest_one_at(&mut store, &r2, NOW);
    assert!(store.has_view_for(&"series_a".to_string()));
    assert!(store.has_view_for(&"series_b".to_string()));
    let mut a_rows = Vec::new();
    for i in 0..store.row_count() {
        let row = store.get_row(i);
        if row.series_name == "series_a" {
            a_rows.push(row.id);
        }
    }
    assert_eq!(a_rows, vec![1]);
}

#[test]
fn unknown_operation_resolves_to_not_found() {
    assert_eq!(lookup_operation("nonexistent"), None);
    match not_found_response() {
        ApiResponse::Failure { class, error } => {
            assert_eq!(class, ErrorClass::NotFound);
            assert_eq!(error, "not found");
        },
        _ => panic!("expected failure"),
    }
}

#[test]
fn known_operations_resolve() {
    assert_eq!(lookup_operation("insert"), Some(Operation::InsertOne));
    assert_eq!(lookup_operation("insert_batch"), Some(Operation::InsertBatch));
}
