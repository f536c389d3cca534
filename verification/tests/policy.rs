use tsdata_ingest::errors::{batch_too_large_message, empty_batch_message};
use tsdata_ingest::policy::{BatchError, MAX_BATCH_SIZE, validate_batch_size};

#[test]
fn empty_batch_is_rejected() {
    assert_eq!(validate_batch_size(0), Err(BatchError::Empty));
}

#[test]
fn batch_of_one_is_accepted() {
    assert_eq!(validate_batch_size(1), Ok(()));
}

#[test]
fn batch_of_one_hundred_is_accepted() {
    assert_eq!(validate_batch_size(100), Ok(()));
}

#[test]
fn batch_of_one_hundred_one_is_rejected() {
    assert_eq!(validate_batch_size(101), Err(BatchError::TooLarge));
}

#[test]
fn batch_cap_is_one_hundred() {
    assert_eq!(MAX_BATCH_SIZE, 100);
}

#[test]
fn batch_refusal_messages_are_stable() {
    assert_eq!(empty_batch_message(), "batch cannot be empty");
    assert_eq!(
        batch_too_large_message(),
        "batch size cannot exceed 100 data points"
    );
}
