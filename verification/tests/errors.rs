use tsdata_ingest::errors::{
    ErrorClass, StorageError, date_error_message, http_status_of, not_found_message,
    translate_storage_error,
};

#[test]
fn constraint_violation_is_client_error_with_verbatim_message() {
    let e = StorageError::ConstraintViolation {
        message: "the store's own words".to_string(),
    };
    let (class, message) = translate_storage_error(&e);
    assert_eq!(class, ErrorClass::ClientError);
    assert_eq!(message, "the store's own words");
}

#[test]
fn connection_failure_is_server_error_and_leaks_nothing() {
    let e = StorageError::ConnectionFailure {
        message: "pool timed out waiting for a connection to 10.0.0.1:5432".to_string(),
    };
    let (class, message) = translate_storage_error(&e);
    assert_eq!(class, ErrorClass::ServerError);
    assert_eq!(message, "database connection failed");
}

#[test]
fn other_storage_failure_is_server_error_with_generic_message() {
    let e = StorageError::Other {
        message: "deadlock detected on relation 16384".to_string(),
    };
    let (class, message) = translate_storage_error(&e);
    assert_eq!(class, ErrorClass::ServerError);
    assert_eq!(message, "internal storage error");
}

#[test]
fn date_error_message_carries_input() {
    assert_eq!(date_error_message("soon"), "invalid date format: soon");
}

#[test]
fn classifications_map_to_status_codes() {
    assert_eq!(http_status_of(ErrorClass::ClientError), 400);
    assert_eq!(http_status_of(ErrorClass::ServerError), 500);
    assert_eq!(http_status_of(ErrorClass::NotFound), 404);
}

#[test]
fn not_found_message_is_generic() {
    assert_eq!(not_found_message(), "not found");
}
