use cistern::Error;

#[test]
fn expected_column_message() {
    assert_eq!(
        Error::ExpectedColumn("id").message(),
        "Expected 'id' column (maybe table is broken)"
    );
}

#[test]
fn failed_downcast_message() {
    assert_eq!(
        Error::FailedDowncast("id", "UInt64Array").message(),
        "Failed to downcast 'id' to UInt64Array"
    );
}

#[test]
fn invalid_batch_length_message() {
    assert_eq!(
        Error::InvalidBatchLength.message(),
        "All vectors in a batch must have the same length"
    );
}

#[test]
fn database_message_is_sled_text() {
    let inner = sled::Error::Unsupported("nope".to_string());
    let text = format!("{}", inner);
    assert_eq!(Error::Database(inner).message(), text);
}

#[test]
fn column_name_converts_to_missing_column() {
    let e: Error = "vector".into();
    assert!(matches!(e, Error::ExpectedColumn("vector")));
}

#[test]
fn sled_error_converts_to_database_error() {
    let e: Error = sled::Error::Unsupported("x".to_string()).into();
    assert!(matches!(e, Error::Database(_)));
}
