use cistern::rag::{
    assemble_batch, delete_predicate, hits_or_none, is_untrainable_index_error, lance_dir_name,
    resolve_columns, BatchError, ColumnLookup,
};
use cistern::{Error, RagRecord, Record};

#[test]
fn table_directory_name() {
    assert_eq!(lance_dir_name("documents"), "documents.lance");
    assert_eq!(lance_dir_name(""), ".lance");
}

#[test]
fn delete_predicates() {
    assert_eq!(delete_predicate(0), "id = 0");
    assert_eq!(delete_predicate(42), "id = 42");
    assert_eq!(delete_predicate(1_000_000), "id = 1000000");
    assert_eq!(delete_predicate(u64::MAX), format!("id = {}", u64::MAX));
}

#[test]
fn untrainable_index_errors() {
    assert!(is_untrainable_index_error("KMeans cannot train 256 centroids with 3 vectors"));
    assert!(is_untrainable_index_error("error: please choose a smaller K"));
    assert!(!is_untrainable_index_error("table not found"));
    assert!(!is_untrainable_index_error("KMeans cannot"));
    assert!(!is_untrainable_index_error(""));
}

#[test]
fn empty_batch_writes_nothing() {
    let items: Vec<(Vec<i32>, Result<String, String>)> = Vec::new();
    assert!(matches!(assemble_batch(items), Ok(None)));
}

#[test]
fn batch_columns_in_order() {
    let items: Vec<(Vec<i32>, Result<String, String>)> = vec![
        (vec![1, 2], Ok("a".to_string())),
        (vec![3, 4], Ok("b".to_string())),
    ];
    match assemble_batch(items) {
        Ok(Some(cols)) => {
            assert_eq!(cols.dim, 2);
            assert_eq!(cols.flat, vec![1, 2, 3, 4]);
            assert_eq!(cols.payloads, vec!["a".to_string(), "b".to_string()]);
        }
        _ => panic!("expected columns"),
    }
}

#[test]
fn batch_with_uneven_vectors() {
    let items: Vec<(Vec<i32>, Result<String, String>)> = vec![
        (vec![1, 2], Ok("a".to_string())),
        (vec![3], Ok("b".to_string())),
    ];
    assert!(matches!(
        assemble_batch(items),
        Err(BatchError::Invalid(Error::InvalidBatchLength))
    ));
}

#[test]
fn batch_encoding_error_before_uneven_vector() {
    let items: Vec<(Vec<i32>, Result<String, String>)> = vec![
        (vec![1, 2], Err("bad".to_string())),
        (vec![3], Ok("b".to_string())),
    ];
    match assemble_batch(items) {
        Err(BatchError::Encode(e)) => assert_eq!(e, "bad"),
        _ => panic!("expected the encoding error"),
    }
}

#[test]
fn batch_uneven_vector_before_encoding_error() {
    let items: Vec<(Vec<i32>, Result<String, String>)> = vec![
        (vec![1, 2], Ok("a".to_string())),
        (vec![3], Err("bad".to_string())),
    ];
    assert!(matches!(
        assemble_batch(items),
        Err(BatchError::Invalid(Error::InvalidBatchLength))
    ));
}

#[test]
fn no_hits_is_none() {
    let hits: Vec<RagRecord<String>> = Vec::new();
    assert!(hits_or_none(hits).is_none());
}

#[test]
fn hits_are_kept_in_order() {
    let hits = vec![
        RagRecord { id: 2, data: "x".to_string() },
        RagRecord { id: 1, data: "y".to_string() },
    ];
    let found = hits_or_none(hits).unwrap();
    assert_eq!(found.len(), 2);
    assert_eq!(found[0].id, 2);
    assert_eq!(found[1].data, "y");
}

#[test]
fn records_hold_id_and_data() {
    let r = Record { id: 7, data: 3u8 };
    let copy = r.clone();
    assert_eq!(copy.id, 7);
    assert_eq!(copy.data, 3);
}

#[test]
fn columns_found() {
    let r = resolve_columns(ColumnLookup::Found(1u8), ColumnLookup::Found("d"));
    assert!(matches!(r, Ok((1, "d"))));
}

#[test]
fn missing_id_column_comes_first() {
    let r = resolve_columns::<u8, u8>(ColumnLookup::Missing, ColumnLookup::Missing);
    assert_eq!(r.err().unwrap().message(), "Expected 'id' column (maybe table is broken)");
}

#[test]
fn id_column_of_wrong_type() {
    let r = resolve_columns::<u8, u8>(ColumnLookup::WrongType, ColumnLookup::Found(0));
    assert!(matches!(r, Err(Error::FailedDowncast("id", "UInt64Array"))));
}

#[test]
fn missing_data_column_is_named_column() {
    let r = resolve_columns::<u8, u8>(ColumnLookup::Found(0), ColumnLookup::Missing);
    assert!(matches!(r, Err(Error::ExpectedColumn("column"))));
}

#[test]
fn data_column_of_wrong_type() {
    let r = resolve_columns::<u8, u8>(ColumnLookup::Found(0), ColumnLookup::WrongType);
    assert!(matches!(r, Err(Error::FailedDowncast("data", "StringArray"))));
}
