use cistern::{Backend, Cistern, Error, Kv, Storage};

/// A database in a fresh directory of its own, with the table `name` empty.
fn fresh(dir: &str, name: &str) -> Kv {
    let mut kv = Kv::connect(dir).unwrap();
    kv.remove_table(name).unwrap();
    kv
}

#[test]
fn read_after_write_gives_the_value() {
    let mut kv = fresh("/tmp/cistern-t-read-after-write", "docs");
    kv.write("docs", b"k", b"v").unwrap();
    assert_eq!(kv.read("docs", b"k").unwrap(), Some(b"v".to_vec()));
}

#[test]
fn read_of_missing_key_is_none() {
    let mut kv = fresh("/tmp/cistern-t-missing-key", "docs");
    assert_eq!(kv.read("docs", b"nothing").unwrap(), None);
}

#[test]
fn last_write_wins() {
    let mut kv = fresh("/tmp/cistern-t-last-write", "docs");
    kv.write("docs", b"k", b"first").unwrap();
    kv.write("docs", b"k", b"second").unwrap();
    assert_eq!(kv.read("docs", b"k").unwrap(), Some(b"second".to_vec()));
}

#[test]
fn remove_then_read_is_none() {
    let mut kv = fresh("/tmp/cistern-t-remove", "docs");
    kv.write("docs", b"a", b"1").unwrap();
    kv.write("docs", b"b", b"2").unwrap();
    kv.remove("docs", b"b").unwrap();
    assert_eq!(kv.read("docs", b"b").unwrap(), None);
    assert_eq!(kv.read("docs", b"a").unwrap(), Some(b"1".to_vec()));
}

#[test]
fn remove_of_missing_key_is_no_error() {
    let mut kv = fresh("/tmp/cistern-t-remove-missing", "docs");
    assert!(kv.remove("docs", b"missing").is_ok());
    assert_eq!(kv.read("docs", b"missing").unwrap(), None);
}

#[test]
fn flush_keeps_entries() {
    let mut kv = fresh("/tmp/cistern-t-flush", "docs");
    kv.write("docs", b"k", b"v").unwrap();
    kv.flush("docs").unwrap();
    assert_eq!(kv.read("docs", b"k").unwrap(), Some(b"v".to_vec()));
}

#[test]
fn tables_are_separate() {
    let mut kv = fresh("/tmp/cistern-t-separate", "a");
    kv.remove_table("b").unwrap();
    kv.write("a", b"k", b"1").unwrap();
    assert_eq!(kv.read("b", b"k").unwrap(), None);
}

#[test]
fn tables_opened_under_one_name_share_data() {
    let mut kv = fresh("/tmp/cistern-t-shared", "docs");
    let first = kv.open_table("docs").unwrap();
    let second = kv.open_table("docs").unwrap();
    assert_eq!(second.read(&mut kv, b"k").unwrap(), None);
    first.write(&mut kv, b"k", b"v").unwrap();
    assert_eq!(second.read(&mut kv, b"k").unwrap(), Some(b"v".to_vec()));
    assert_eq!(first.name(), "docs");
}

#[test]
fn table_handle_operations() {
    let mut kv = fresh("/tmp/cistern-t-handle", "docs");
    let table = kv.open_table("docs").unwrap();
    table.write(&mut kv, b"x", b"1").unwrap();
    table.flush(&mut kv).unwrap();
    table.remove(&mut kv, b"x").unwrap();
    assert_eq!(table.read(&mut kv, b"x").unwrap(), None);
}

#[test]
fn json_keyed_scenario() {
    let mut kv = fresh("/tmp/cistern-t-json", "documents");
    let docs = kv.open_table("documents").unwrap();
    let rust_book = serde_json::to_vec("rust-book").unwrap();
    let async_rust = serde_json::to_vec("async-rust").unwrap();
    let first = serde_json::to_vec(&vec!["Rust", "book.pdf"]).unwrap();
    let second = serde_json::to_vec(&vec!["Async", "docs.md"]).unwrap();
    docs.write(&mut kv, &rust_book, &first).unwrap();
    docs.write(&mut kv, &async_rust, &second).unwrap();
    assert_eq!(docs.read(&mut kv, &rust_book).unwrap(), Some(first));
    docs.remove(&mut kv, &async_rust).unwrap();
    assert_eq!(docs.read(&mut kv, &async_rust).unwrap(), None);
    docs.flush(&mut kv).unwrap();
    kv.remove_table("documents").unwrap();
}

#[test]
fn removed_table_reads_empty_and_others_stay() {
    let mut kv = fresh("/tmp/cistern-t-remove-table", "documents");
    kv.remove_table("notes").unwrap();
    kv.write("documents", b"key", b"value").unwrap();
    kv.write("notes", b"n", b"1").unwrap();
    kv.remove_table("documents").unwrap();
    let fresh_table = kv.open_table("documents").unwrap();
    assert_eq!(fresh_table.read(&mut kv, b"key").unwrap(), None);
    assert_eq!(kv.read("notes", b"n").unwrap(), Some(b"1".to_vec()));
}

#[test]
fn removing_a_missing_table_is_no_error() {
    let mut kv = Kv::connect("/tmp/cistern-t-missing-table").unwrap();
    assert!(kv.remove_table("never-opened").is_ok());
}

#[test]
fn removing_the_core_tree_is_a_database_error() {
    let mut kv = Kv::connect("/tmp/cistern-t-core-tree").unwrap();
    match kv.remove_table("__sled__default") {
        Err(Error::Database(_)) => {}
        _ => panic!("expected a database error"),
    }
}

#[test]
fn cistern_over_kv() {
    let mut db = Cistern::<Kv>::connect("/tmp/cistern-t-generic").unwrap();
    db.remove_table("documents").unwrap();
    let first = db.open_table("documents").unwrap();
    let second = db.open_table("documents").unwrap();
    assert_eq!(first.name(), second.name());
    db.remove_table("documents").unwrap();
}

#[test]
fn backend_trait_on_kv() {
    let mut kv = <Kv as Backend>::connect("/tmp/cistern-t-backend-trait").unwrap();
    let table = Backend::open_table(&mut kv, "t").unwrap();
    table.write(&mut kv, b"x", b"y").unwrap();
    assert!(Backend::remove_table(&mut kv, "t").is_ok());
    assert_eq!(table.read(&mut kv, b"x").unwrap(), None);
}

#[test]
fn storage_round_trip() {
    let mut storage = Storage::connect("/tmp/cistern-t-storage").unwrap();
    storage.remove_table("notes").unwrap();
    let table = storage.open_table("notes").unwrap();
    storage.write(table.name(), b"n", b"1").unwrap();
    assert_eq!(storage.read("notes", b"n").unwrap(), Some(b"1".to_vec()));
    storage.flush("notes").unwrap();
    storage.remove("notes", b"n").unwrap();
    assert_eq!(storage.read("notes", b"n").unwrap(), None);
    storage.remove_table("notes").unwrap();
}

#[test]
fn json_keys_with_different_encodings_are_different_entries() {
    let mut kv = fresh("/tmp/cistern-t-json-keys", "docs");
    let text_one = serde_json::to_vec("1").unwrap();
    let number_one = serde_json::to_vec(&1u64).unwrap();
    let byte_one = serde_json::to_vec(&1u8).unwrap();
    kv.write("docs", &text_one, b"text").unwrap();
    kv.write("docs", &number_one, b"number").unwrap();
    assert_eq!(kv.read("docs", &text_one).unwrap(), Some(b"text".to_vec()));
    assert_eq!(kv.read("docs", &byte_one).unwrap(), Some(b"number".to_vec()));
}
