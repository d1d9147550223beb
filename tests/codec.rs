use elixir_lancedb::column::{ColumnArray, RecordBatch, ValueArray};
use elixir_lancedb::decode::from_arrow;
use elixir_lancedb::encode::to_arrow;
use elixir_lancedb::error::Error;
use elixir_lancedb::schema::{ChildField, ChildFieldType, Field, FieldKind, FieldType, Schema};
use elixir_lancedb::value::{Scalar, TaggedRecord, TaggedValue};
use std::collections::HashMap;

fn field(name: &str, field_type: FieldType, nullable: bool) -> Field {
    Field { name: name.to_string(), field_type, nullable }
}

fn child(t: ChildFieldType) -> ChildField {
    ChildField { name: "item".to_string(), field_type: t, nullable: true }
}

fn schema(fields: Vec<Field>) -> Schema {
    Schema { fields, metadata: HashMap::new() }
}

fn text(s: &str) -> Scalar {
    Scalar::Utf8(s.to_string())
}

fn entry(name: &str, v: TaggedValue) -> (String, TaggedValue) {
    (name.to_string(), v)
}

fn get<'a>(rec: &'a TaggedRecord, name: &str) -> Option<&'a TaggedValue> {
    rec.iter().find(|(k, _)| k == name).map(|(_, v)| v)
}

fn strings(v: Option<&TaggedValue>) -> Vec<String> {
    match v {
        Some(TaggedValue::List(xs)) => xs
            .iter()
            .map(|x| match x {
                Scalar::Utf8(s) => s.clone(),
                other => panic!("not a string: {:?}", other),
            })
            .collect(),
        other => panic!("not a list: {:?}", other),
    }
}

fn integer(v: Option<&TaggedValue>) -> i64 {
    match v {
        Some(TaggedValue::Scalar(Scalar::Integer(n))) => *n,
        other => panic!("not an integer: {:?}", other),
    }
}

fn worked_schema() -> Schema {
    schema(vec![
        field("id", FieldType::Int32, false),
        field("tags", FieldType::List(child(ChildFieldType::Utf8)), true),
    ])
}

fn worked_rows() -> Vec<TaggedRecord> {
    vec![
        vec![
            entry("id", TaggedValue::Scalar(Scalar::Integer(1))),
            entry("tags", TaggedValue::List(vec![text("a"), text("b")])),
        ],
        vec![
            entry("id", TaggedValue::Scalar(Scalar::Integer(2))),
            entry("tags", TaggedValue::List(vec![])),
        ],
    ]
}

#[test]
fn worked_example_encodes_and_decodes() {
    let s = worked_schema();
    let cols = to_arrow(&worked_rows(), &s).ok().expect("encodes");
    assert_eq!(cols.len(), 2);
    assert_eq!(cols[0].len(), 2);
    assert_eq!(cols[1].len(), 2);
    match &cols[0] {
        ColumnArray::Primitive(ValueArray::Int32(v)) => assert_eq!(v, &vec![Some(1), Some(2)]),
        other => panic!("unexpected column {:?}", other),
    }
    let batch = RecordBatch { num_rows: 2, columns: cols };
    let recs = from_arrow(&vec![batch], &s);
    assert_eq!(recs.len(), 2);
    assert_eq!(integer(get(&recs[0], "id")), 1);
    assert_eq!(strings(get(&recs[0], "tags")), vec!["a".to_string(), "b".to_string()]);
    assert_eq!(integer(get(&recs[1], "id")), 2);
    assert_eq!(strings(get(&recs[1], "tags")), Vec::<String>::new());
}

#[test]
fn every_column_has_one_row_per_input_row() {
    let s = schema(vec![
        field("flag", FieldType::Boolean, false),
        field("name", FieldType::Utf8, true),
        field("score", FieldType::Float32, true),
        field("big", FieldType::Int64, true),
        field("vec", FieldType::FixedSizeList(child(ChildFieldType::Float32), 2), true),
    ]);
    let row = |i: i64| {
        vec![
            entry("flag", TaggedValue::Scalar(Scalar::Boolean(i % 2 == 0))),
            entry("name", TaggedValue::Scalar(text("x"))),
            entry("score", TaggedValue::Scalar(Scalar::Float(1.5f32.to_bits()))),
            entry("big", TaggedValue::Scalar(Scalar::Integer(i * 10_000_000_000))),
            entry(
                "vec",
                TaggedValue::List(vec![Scalar::Float(0.5f32.to_bits()), Scalar::Float(2.0f32.to_bits())]),
            ),
        ]
    };
    let rows: Vec<TaggedRecord> = (0..3).map(row).collect();
    let cols = to_arrow(&rows, &s).ok().expect("encodes");
    assert_eq!(cols.len(), 5);
    for c in &cols {
        assert_eq!(c.len(), 3);
    }
}

#[test]
fn empty_list_decodes_as_empty_sequence() {
    let s = schema(vec![field("tags", FieldType::List(child(ChildFieldType::Int32)), true)]);
    let rows = vec![vec![entry("tags", TaggedValue::List(vec![]))]];
    let cols = to_arrow(&rows, &s).ok().expect("encodes");
    let recs = from_arrow(&vec![RecordBatch { num_rows: 1, columns: cols }], &s);
    match get(&recs[0], "tags") {
        Some(TaggedValue::List(xs)) => assert!(xs.is_empty()),
        other => panic!("expected an empty list, got {:?}", other),
    }
}

#[test]
fn keys_in_any_order_encode_alike() {
    let s = worked_schema();
    let reordered: Vec<TaggedRecord> = worked_rows()
        .into_iter()
        .map(|mut r| {
            r.reverse();
            r
        })
        .collect();
    let a = to_arrow(&worked_rows(), &s).ok().expect("encodes");
    let b = to_arrow(&reordered, &s).ok().expect("encodes");
    assert_eq!(format!("{:?}", a), format!("{:?}", b));
}

#[test]
fn missing_field_is_reported() {
    let s = worked_schema();
    let rows = vec![vec![entry("id", TaggedValue::Scalar(Scalar::Integer(1)))]];
    match to_arrow(&rows, &s) {
        Err(Error::FieldMissing { field }) => assert_eq!(field, "tags"),
        other => panic!("unexpected {:?}", other),
    }
}

#[test]
fn wrong_type_is_reported() {
    let s = worked_schema();
    let rows = vec![vec![
        entry("id", TaggedValue::Scalar(text("one"))),
        entry("tags", TaggedValue::List(vec![])),
    ]];
    match to_arrow(&rows, &s) {
        Err(Error::TypeMismatch { field, expected }) => {
            assert_eq!(field, "id");
            assert_eq!(expected, FieldKind::Int32);
        },
        other => panic!("unexpected {:?}", other),
    }
}

#[test]
fn out_of_range_int32_is_a_mismatch() {
    let s = schema(vec![field("id", FieldType::Int32, false)]);
    let rows = vec![vec![entry("id", TaggedValue::Scalar(Scalar::Integer(1 << 40)))]];
    assert!(matches!(to_arrow(&rows, &s), Err(Error::TypeMismatch { .. })));
}

#[test]
fn fixed_size_list_length_is_enforced() {
    let s = schema(vec![field("v", FieldType::FixedSizeList(child(ChildFieldType::Int32), 3), false)]);
    let rows = vec![vec![entry("v", TaggedValue::List(vec![Scalar::Integer(1), Scalar::Integer(2)]))]];
    assert!(matches!(to_arrow(&rows, &s), Err(Error::TypeMismatch { .. })));
}

#[test]
fn first_failing_row_decides_the_error() {
    let s = worked_schema();
    let rows = vec![
        vec![entry("tags", TaggedValue::List(vec![]))],
        vec![entry("id", TaggedValue::Scalar(Scalar::Boolean(true)))],
    ];
    match to_arrow(&rows, &s) {
        Err(Error::FieldMissing { field }) => assert_eq!(field, "id"),
        other => panic!("unexpected {:?}", other),
    }
}

#[test]
fn nulls_and_wrong_columns_decode_as_defaults() {
    let s = schema(vec![
        field("a", FieldType::Int32, true),
        field("b", FieldType::Utf8, true),
        field("c", FieldType::List(child(ChildFieldType::Utf8)), true),
        field("d", FieldType::Boolean, true),
    ]);
    let batch = RecordBatch {
        num_rows: 1,
        columns: vec![
            ColumnArray::Primitive(ValueArray::Int32(vec![None])),
            ColumnArray::Primitive(ValueArray::Int64(vec![Some(7)])),
            ColumnArray::List(vec![ValueArray::Int32(vec![Some(1)])]),
        ],
    };
    let recs = from_arrow(&vec![batch], &s);
    assert_eq!(recs.len(), 1);
    assert_eq!(integer(get(&recs[0], "a")), 0);
    match get(&recs[0], "b") {
        Some(TaggedValue::Scalar(Scalar::Utf8(t))) => assert_eq!(t, ""),
        other => panic!("unexpected {:?}", other),
    }
    assert_eq!(strings(get(&recs[0], "c")), Vec::<String>::new());
    assert!(matches!(get(&recs[0], "d"), Some(TaggedValue::Scalar(Scalar::Boolean(false)))));
}

#[test]
fn batches_are_concatenated_in_order() {
    let s = schema(vec![field("n", FieldType::Int64, false)]);
    let b1 = RecordBatch { num_rows: 2, columns: vec![ColumnArray::Primitive(ValueArray::Int64(vec![Some(1), Some(2)]))] };
    let b2 = RecordBatch { num_rows: 1, columns: vec![ColumnArray::Primitive(ValueArray::Int64(vec![Some(3)]))] };
    let recs = from_arrow(&vec![b1, b2], &s);
    let got: Vec<i64> = recs.iter().map(|r| integer(get(r, "n"))).collect();
    assert_eq!(got, vec![1, 2, 3]);
}

#[test]
fn null_list_elements_decode_as_defaults() {
    let s = schema(vec![field("xs", FieldType::FixedSizeList(child(ChildFieldType::Float32), 2), true)]);
    let batch = RecordBatch {
        num_rows: 1,
        columns: vec![ColumnArray::FixedSizeList(vec![ValueArray::Float32(vec![Some(3), None])], 2)],
    };
    let recs = from_arrow(&vec![batch], &s);
    match get(&recs[0], "xs") {
        Some(TaggedValue::List(xs)) => {
            assert!(matches!(xs[0], Scalar::Float(3)));
            assert!(matches!(xs[1], Scalar::Float(0)));
        },
        other => panic!("unexpected {:?}", other),
    }
}

#[test]
fn round_trip_keeps_every_kind() {
    let s = schema(vec![
        field("b", FieldType::Boolean, false),
        field("f", FieldType::Float32, false),
        field("l", FieldType::List(child(ChildFieldType::Int64)), true),
        field("s", FieldType::Utf8, false),
    ]);
    let rows = vec![vec![
        entry("s", TaggedValue::Scalar(text("hello"))),
        entry("b", TaggedValue::Scalar(Scalar::Boolean(true))),
        entry("f", TaggedValue::Scalar(Scalar::Float((-2.25f32).to_bits()))),
        entry("l", TaggedValue::List(vec![Scalar::Integer(-5), Scalar::Integer(i64::MAX)])),
    ]];
    let cols = to_arrow(&rows, &s).ok().expect("encodes");
    let recs = from_arrow(&vec![RecordBatch { num_rows: 1, columns: cols }], &s);
    for (name, v) in &rows[0] {
        assert_eq!(format!("{:?}", get(&recs[0], name)), format!("{:?}", Some(v)));
    }
}
