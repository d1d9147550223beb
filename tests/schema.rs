use elixir_lancedb::column::{ColumnArray, RecordBatch, ValueArray};
use elixir_lancedb::decode::from_arrow_for;
use elixir_lancedb::encode::to_arrow_for;
use elixir_lancedb::value::{Scalar, TaggedValue};
use elixir_lancedb::error::Error;
use elixir_lancedb::native::{NativeChildField, NativeChildType, NativeField, NativeSchema, NativeType};
use elixir_lancedb::schema::{ChildField, ChildFieldType, Field, FieldType, Schema};
use std::collections::HashMap;

fn native_field(name: &str, data_type: NativeType, nullable: bool) -> NativeField {
    NativeField { name: name.to_string(), data_type, nullable }
}

#[test]
fn native_schema_keeps_order_and_nullability() {
    let mut metadata = HashMap::new();
    metadata.insert("k".to_string(), "v".to_string());
    let s = Schema {
        fields: vec![
            Field { name: "id".to_string(), field_type: FieldType::Int32, nullable: false },
            Field {
                name: "emb".to_string(),
                field_type: FieldType::FixedSizeList(
                    ChildField { name: "item".to_string(), field_type: ChildFieldType::Float32, nullable: true },
                    4,
                ),
                nullable: true,
            },
        ],
        metadata,
    };
    let n = s.into_arrow();
    assert_eq!(n.fields.len(), 2);
    assert_eq!(n.fields[0].name, "id");
    assert!(!n.fields[0].nullable);
    assert!(matches!(n.fields[0].data_type, NativeType::Int32));
    assert_eq!(n.fields[1].name, "emb");
    assert!(n.fields[1].nullable);
    match &n.fields[1].data_type {
        NativeType::FixedSizeList(c, d) => {
            assert_eq!(*d, 4);
            assert!(matches!(c.data_type, NativeChildType::Float32));
        },
        other => panic!("unexpected {:?}", other),
    }
    assert_eq!(n.metadata.get("k").map(|v| v.as_str()), Some("v"));
    let back = Schema::try_from_arrow(&n).ok().expect("supported");
    assert_eq!(back.fields.len(), 2);
    assert_eq!(back.fields[1].name, "emb");
    assert!(matches!(back.fields[1].field_type, FieldType::FixedSizeList(_, 4)));
}

#[test]
fn unsupported_type_is_rejected() {
    let n = NativeSchema {
        fields: vec![
            native_field("ok", NativeType::Utf8, true),
            native_field("when", NativeType::Other("Timestamp(ns)".to_string()), true),
        ],
        metadata: HashMap::new(),
    };
    match Schema::try_from_arrow(&n) {
        Err(Error::UnsupportedType { found }) => assert_eq!(found, "Timestamp(ns)"),
        other => panic!("unexpected {:?}", other),
    }
}

#[test]
fn unsupported_child_type_is_rejected() {
    let t = NativeType::List(NativeChildField {
        name: "item".to_string(),
        data_type: NativeChildType::Other("List(Int32)".to_string()),
        nullable: true,
    });
    match FieldType::try_from_arrow(&t) {
        Err(Error::UnsupportedType { found }) => assert_eq!(found, "List(Int32)"),
        other => panic!("unexpected {:?}", other),
    }
}

#[test]
fn supported_types_convert() {
    assert!(matches!(FieldType::try_from_arrow(&NativeType::Boolean), Ok(FieldType::Boolean)));
    assert!(matches!(FieldType::try_from_arrow(&NativeType::Int64), Ok(FieldType::Int64)));
    assert!(matches!(FieldType::Utf8.into_arrow(), NativeType::Utf8));
}

#[test]
fn encoding_under_an_unsupported_native_schema_fails() {
    let n = NativeSchema {
        fields: vec![native_field("when", NativeType::Other("Date32".to_string()), false)],
        metadata: HashMap::new(),
    };
    let rows = vec![vec![("when".to_string(), TaggedValue::Scalar(Scalar::Integer(3)))]];
    match to_arrow_for(&rows, &n) {
        Err(Error::UnsupportedType { found }) => assert_eq!(found, "Date32"),
        other => panic!("unexpected {:?}", other),
    }
}

#[test]
fn encoding_under_a_native_schema_matches_the_schema() {
    let n = NativeSchema {
        fields: vec![native_field("n", NativeType::Int64, false)],
        metadata: HashMap::new(),
    };
    let rows = vec![vec![("n".to_string(), TaggedValue::Scalar(Scalar::Integer(-9)))]];
    match to_arrow_for(&rows, &n) {
        Ok(cols) => assert!(matches!(&cols[0], ColumnArray::Primitive(ValueArray::Int64(v)) if v == &vec![Some(-9)])),
        other => panic!("unexpected {:?}", other),
    }
}

#[test]
fn decoding_under_an_unsupported_native_schema_fails() {
    let n = NativeSchema {
        fields: vec![native_field(
            "xs",
            NativeType::FixedSizeList(
                NativeChildField {
                    name: "item".to_string(),
                    data_type: NativeChildType::Other("Struct".to_string()),
                    nullable: true,
                },
                2,
            ),
            true,
        )],
        metadata: HashMap::new(),
    };
    let batch = RecordBatch { num_rows: 1, columns: vec![ColumnArray::Other(1)] };
    match from_arrow_for(&vec![batch], &n) {
        Err(Error::UnsupportedType { found }) => assert_eq!(found, "Struct"),
        other => panic!("unexpected {:?}", other),
    }
}
