use elixir_lancedb::config::row_filter;
use elixir_lancedb::config::{DistanceType, IndexConfig, OptimizeAction};
use elixir_lancedb::error::{Error, ErrorKind};
use elixir_lancedb::schema::FieldKind;

#[test]
fn codec_errors_are_classified() {
    let e = Error::TypeMismatch { field: "id".to_string(), expected: FieldKind::Int32 };
    assert_eq!(e.kind(), ErrorKind::TypeMismatch);
    let (tag, message) = e.encode();
    assert_eq!(tag, "type_mismatch");
    assert_eq!(message, "field id expects a value of type Int32");
    let e = Error::FieldMissing { field: "tags".to_string() };
    assert_eq!(e.kind(), ErrorKind::FieldMissing);
    assert_eq!(e.encode(), ("field_missing", "missing field: tags".to_string()));
    let e = Error::UnsupportedType { found: "Date32".to_string() };
    assert_eq!(e.kind(), ErrorKind::UnsupportedType);
    assert_eq!(e.encode(), ("unsupported_type", "data type not supported: Date32".to_string()));
    let e = Error::InvalidInput { message: "not a list".to_string() };
    assert_eq!(e.kind(), ErrorKind::InputShape);
    assert_eq!(e.encode(), ("invalid_input", "not a list".to_string()));
}

#[test]
fn engine_errors_keep_their_messages() {
    let e = Error::LanceInvalidTableName { name: "t!".to_string(), reason: "bad char".to_string() };
    assert_eq!(e.kind(), ErrorKind::StorageEngine);
    assert_eq!(e.encode(), ("lance_invalid_table_name", "t! is not a valid database name: bad char".to_string()));
    let e = Error::LanceCreateDir { path: "/x".to_string(), message: "denied".to_string() };
    assert_eq!(e.encode(), ("lance_create_dir", "Could not create dir at path /x, reason: denied".to_string()));
    let e = Error::ArrowIoError { message: "read".to_string(), error: "eof".to_string() };
    assert_eq!(e.encode(), ("arrow_io_error", "read. eof.".to_string()));
    assert_eq!(Error::ArrowDivideByZero.encode(), ("arrow_divide_by_zero", "no further information provided".to_string()));
    assert_eq!(Error::RustlerBadArg.encode(), ("rustler_bad_arg", "bad argument".to_string()));
    assert_eq!(Error::RustlerBadArg.kind(), ErrorKind::InputShape);
    let e = Error::LanceEmbeddingFunctionNotFound { name: "f".to_string(), reason: "r".to_string() };
    assert_eq!(e.encode().1, "Embedding function f not found: r");
}

#[test]
fn names_are_parsed() {
    assert_eq!(DistanceType::from_name(&"cosine".to_string()).ok(), Some(DistanceType::Cosine));
    assert_eq!(DistanceType::from_name(&"hamming".to_string()).ok(), Some(DistanceType::Hamming));
    assert!(matches!(DistanceType::from_name(&"manhattan".to_string()), Err(Error::RustlerBadArg)));
    assert!(matches!(IndexConfig::plain_from_name(&"label_list".to_string()), Some(IndexConfig::LabelList)));
    assert!(IndexConfig::plain_from_name(&"ivf_pq".to_string()).is_none());
    assert_eq!(OptimizeAction::from_name(&"all".to_string()).ok(), Some(OptimizeAction::All));
    assert!(matches!(OptimizeAction::from_name(&"some".to_string()), Err(Error::InvalidInput { .. })));
}

#[test]
fn handle_errors_are_engine_errors() {
    let e = Error::TableConnectionClosed { message: "the table connection is not open".to_string() };
    assert_eq!(e.kind(), ErrorKind::StorageEngine);
    assert_eq!(e.encode(), ("table_connection_closed", "the table connection is not open".to_string()));
    assert_eq!(Error::DbMutexLockPoisoned { message: "m".to_string() }.tag(), "db_mutex_lock_poisoned");
}

#[test]
fn empty_filter_counts_every_row() {
    assert_eq!(row_filter(String::new()), None);
    assert_eq!(row_filter("id > 3".to_string()), Some("id > 3".to_string()));
}
