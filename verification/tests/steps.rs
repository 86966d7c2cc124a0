//! The single steps of the driver, each on given values.

use docdb::doc_db::document_bytes;
use docdb::{FileDrv, OpenMode, WriteError, HEADER_OFFSET};
use serde_json::Value;
use std::io::{Error, ErrorKind};

#[test]
fn create_mode_creates_and_keeps() {
    let mode = OpenMode::create();
    assert_eq!(mode, OpenMode { read: true, write: true, create: true, truncate: false });
}

#[test]
fn existing_mode_does_not_create() {
    let mode = OpenMode::existing();
    assert_eq!(mode, OpenMode { read: true, write: true, create: false, truncate: false });
}

#[test]
fn new_store_stands_where_the_file_ends() {
    let store = FileDrv::new("./docdb.db", 4096);
    assert_eq!(store.path(), "./docdb.db");
    assert_eq!(store.position(), 4096);
    assert_eq!(store.header_offset(), 1024);
    assert_eq!(HEADER_OFFSET, 1024);
}

#[test]
fn append_doc_returns_compact_json_and_leaves_store_alone() {
    let store = FileDrv::new("a.db", 7);
    let v: Value = serde_json::from_str(r#" { "b" : [ 1 , 2.5 , "x" ] , "a" : null } "#).unwrap();
    let bytes = store.append_doc(&v).unwrap();
    assert_eq!(bytes, br#"{"a":null,"b":[1,2.5,"x"]}"#.to_vec());
    assert_eq!(store.position(), 7);
}

#[test]
fn append_doc_adds_no_delimiter() {
    let store = FileDrv::new("a.db", 0);
    let bytes = store.append_doc(&Value::Null).unwrap();
    assert_eq!(bytes, b"null".to_vec());
    assert_eq!(bytes.len(), 4);
}

#[test]
fn document_bytes_of_a_text_are_its_utf8() {
    let bytes = document_bytes(Ok("{\"k\":\"\u{fc}\"}".to_string())).unwrap();
    assert_eq!(bytes, vec![b'{', b'"', b'k', b'"', b':', b'"', 0xc3, 0xbc, b'"', b'}']);
}

#[test]
fn document_bytes_of_a_refusal_is_a_serialize_error() {
    let refusal = serde_json::from_str::<Value>("{").unwrap_err();
    let said = refusal.to_string();
    match document_bytes(Err(refusal)) {
        Err(WriteError::Serialize(cause)) => assert_eq!(cause.to_string(), said),
        other => panic!("unexpected: {:?}", other),
    }
}

#[test]
fn refused_document_asks_for_no_write() {
    let mut file = b"kept".to_vec();
    let store = FileDrv::new("kept.db", 4);
    let refusal = serde_json::from_str::<Value>("[1,").unwrap_err();
    let to_write = document_bytes(Err(refusal));
    assert!(matches!(to_write, Err(WriteError::Serialize(_))));
    if let Ok(bytes) = to_write {
        file.extend_from_slice(&bytes);
    }
    assert_eq!(file.len(), 4);
    assert_eq!(store.position(), 4);
}

#[test]
fn whole_write_succeeds_and_moves_the_handle() {
    let mut store = FileDrv::new("a.db", 100);
    let r = store.record_write(67, Ok(67));
    assert!(matches!(r, Ok(())));
    assert_eq!(store.position(), 167);
    assert_eq!(store.path(), "a.db");
    assert_eq!(store.header_offset(), 1024);
}

#[test]
fn empty_write_of_empty_document_succeeds() {
    let mut store = FileDrv::new("a.db", 3);
    assert!(store.record_write(0, Ok(0)).is_ok());
    assert_eq!(store.position(), 3);
}

#[test]
fn short_write_is_an_error_and_moves_the_handle_by_what_was_taken() {
    let mut store = FileDrv::new("a.db", 100);
    let r = store.record_write(67, Ok(10));
    assert!(matches!(r, Err(WriteError::Short { written: 10, expected: 67 })));
    assert_eq!(store.position(), 110);
}

#[test]
fn write_of_nothing_is_short() {
    let mut store = FileDrv::new("a.db", 100);
    let r = store.record_write(5, Ok(0));
    assert!(matches!(r, Err(WriteError::Short { written: 0, expected: 5 })));
    assert_eq!(store.position(), 100);
}

#[test]
fn failed_write_is_an_io_error_and_moves_nothing() {
    let mut store = FileDrv::new("a.db", 100);
    let r = store.record_write(67, Err(Error::new(ErrorKind::StorageFull, "disk full")));
    match r {
        Err(WriteError::Io(cause)) => {
            assert_eq!(cause.kind(), ErrorKind::StorageFull);
            assert_eq!(cause.to_string(), "disk full");
        }
        other => panic!("unexpected: {:?}", other),
    }
    assert_eq!(store.position(), 100);
}

#[test]
fn handle_may_reach_the_largest_position() {
    let mut store = FileDrv::new("a.db", u64::MAX - 2);
    assert!(store.record_write(2, Ok(2)).is_ok());
    assert_eq!(store.position(), u64::MAX);
}

#[test]
fn reload_replaces_the_position_only() {
    let mut store = FileDrv::new("./docdb.db", 500);
    store.reload(20);
    assert_eq!(store.position(), 20);
    assert_eq!(store.path(), "./docdb.db");
    assert_eq!(store.header_offset(), 1024);
}

#[test]
fn open_failure_names_path_and_cause() {
    let message = FileDrv::open_failure("./docdb.db", "Permission denied (os error 13)");
    assert_eq!(message, "couldn't open ./docdb.db: Permission denied (os error 13)");
}

#[test]
fn open_failure_with_empty_parts() {
    assert_eq!(FileDrv::open_failure("", ""), "couldn't open : ");
}
