use tsdata_ingest::errors::StorageError;
use tsdata_ingest::models::NewTsData;
use tsdata_ingest::series::{create_series_view_sql, series_name_ok};
use tsdata_ingest::store::{Store, constraint_violation_message};

#[test]
fn view_sql_substitutes_validated_name() {
    let sql = create_series_view_sql("abc_123").unwrap();
    assert_eq!(
        sql,
        "CREATE OR REPLACE VIEW tsdata_abc_123 AS (SELECT * FROM tsdata WHERE series_name = 'abc_123')"
    );
}

#[test]
fn view_sql_refuses_unvalidated_name() {
    assert_eq!(create_series_view_sql("abc-123"), None);
    assert_eq!(create_series_view_sql(""), None);
    assert_eq!(create_series_view_sql("a'; DROP TABLE tsdata; --"), None);
}

#[test]
fn accepted_insert_mints_view_witness() {
    let mut store = Store::new();
    let p = NewTsData {
        data_time: 0,
        series_name: "abc".to_string(),
        contents: "{}".to_string(),
    };
    let (id, witness) = store.insert_row(&p, 0).unwrap();
    assert_eq!(id, 1);
    assert_eq!(witness.name(), "abc");
    assert_eq!(witness.view_name(), "tsdata_abc");
    assert_eq!(
        witness.create_view_sql(),
        "CREATE OR REPLACE VIEW tsdata_abc AS (SELECT * FROM tsdata WHERE series_name = 'abc')"
    );
}

#[test]
fn rejected_insert_leaves_store_untouched() {
    let mut store = Store::new();
    let p = NewTsData {
        data_time: 0,
        series_name: "Not Valid".to_string(),
        contents: "{}".to_string(),
    };
    match store.insert_row(&p, 0) {
        Err(StorageError::ConstraintViolation { message }) => {
            assert_eq!(message, constraint_violation_message());
        },
        _ => panic!("expected a constraint violation"),
    }
    assert_eq!(store.row_count(), 0);
}

#[test]
fn series_name_shape_rule() {
    assert!(series_name_ok("abc_123"));
    assert!(series_name_ok("a"));
    assert!(series_name_ok("0_9z"));
    assert!(!series_name_ok(""));
    assert!(!series_name_ok("Abc"));
    assert!(!series_name_ok("abc-123"));
    assert!(!series_name_ok("abc 123"));
    assert!(!series_name_ok("séries"));
}
