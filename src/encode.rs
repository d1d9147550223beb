use crate::column::{
    bool_item, float_item, int32_item, int64_item, utf8_item, ColumnArray, ColumnV, ValueArray,
    ValuesV,
};
use crate::error::Error;
use crate::native::NativeSchema;
use crate::schema::{
    all_supported, element_type, first_unsupported_error, kind_of, schema_matches, ChildFieldType,
    Field, FieldType, Schema,
};
use crate::value::{
    cell_ok, find_entry, lookup, record_view, rows_conform, rows_view, scalar_conforms,
    scalars_view, all_conform, copy_scalar, value_conforms, value_for, RecordV, Scalar, ScalarV,
    TaggedRecord, TaggedValue, TaggedValueV,
};
use vstd::prelude::*;

verus! {

/// Each scalar as a non-null slot.
pub open spec fn lift(xs: Seq<ScalarV>) -> Seq<Option<ScalarV>> {
    xs.map_values(|x: ScalarV| Some(x))
}

pub open spec fn scalar_of(v: TaggedValueV) -> ScalarV {
    match v {
        TaggedValueV::Scalar(x) => x,
        TaggedValueV::List(_) => ScalarV::Other,
    }
}

pub open spec fn items_of(v: TaggedValueV) -> Seq<ScalarV> {
    match v {
        TaggedValueV::List(xs) => xs,
        TaggedValueV::Scalar(_) => Seq::empty(),
    }
}

/// The typed array holding exactly the given scalars.
pub open spec fn array_of(t: ChildFieldType, xs: Seq<ScalarV>) -> ValuesV {
    ValuesV { kind: t, items: lift(xs) }
}

/// The column that a field of type `ft` gets for the given row values.
pub open spec fn column_of(ft: FieldType, vals: Seq<TaggedValueV>) -> ColumnV {
    match ft {
        FieldType::List(c) => ColumnV::List(
            vals.map_values(|v: TaggedValueV| array_of(c.field_type, items_of(v))),
        ),
        FieldType::FixedSizeList(c, d) => ColumnV::FixedSizeList(
            vals.map_values(|v: TaggedValueV| array_of(c.field_type, items_of(v))),
            d,
        ),
        _ => ColumnV::Primitive(
            array_of(element_type(ft), vals.map_values(|v: TaggedValueV| scalar_of(v))),
        ),
    }
}

/// The values of all rows under one name.
pub open spec fn column_values(rows: Seq<RecordV>, name: Seq<char>) -> Seq<TaggedValueV> {
    rows.map_values(|r: RecordV| value_for(r, name))
}

/// `cols` are the columns that encoding `rows` under `fields` yields.
pub open spec fn encoded(fields: Seq<Field>, rows: Seq<RecordV>, cols: Seq<ColumnArray>) -> bool {
    &&& cols.len() == fields.len()
    &&& forall|j: int|
        0 <= j < fields.len() ==> (#[trigger] cols[j])@ == column_of(
            fields[j].field_type,
            column_values(rows, fields[j].name@),
        )
}

/// The cell (row `i`, field `j`) is the first that fails, in row-major order.
pub open spec fn first_fault(fields: Seq<Field>, rows: Seq<RecordV>, i: int, j: int) -> bool {
    &&& 0 <= i < rows.len()
    &&& 0 <= j < fields.len()
    &&& !cell_ok(fields[j], rows[i])
    &&& forall|i2: int, j2: int|
        0 <= i2 < rows.len() && 0 <= j2 < fields.len() && (i2 < i || (i2 == i && j2 < j))
            ==> cell_ok(#[trigger] fields[j2], #[trigger] rows[i2])
}

/// `e` is the error reported for field `f` of record `rec`.
pub open spec fn fault_is(e: Error, f: Field, rec: RecordV) -> bool {
    match lookup(rec, f.name@) {
        None => match e {
            Error::FieldMissing { field } => field@ == f.name@,
            _ => false,
        },
        Some(_) => match e {
            Error::TypeMismatch { field, expected } => field@ == f.name@ && expected == kind_of(
                f.field_type,
            ),
            _ => false,
        },
    }
}

/// `e` is the error for the first failing cell of `rows` under `fields`.
pub open spec fn encode_error(fields: Seq<Field>, rows: Seq<RecordV>, e: Error) -> bool {
    exists|i: int, j: int| first_fault(fields, rows, i, j) && fault_is(e, fields[j], rows[i])
}

/// The typed array holding the scalars of `xs`, which all fit `t`.
pub fn values_of(t: ChildFieldType, xs: &Vec<Scalar>) -> (r: ValueArray)
    requires
        all_conform(t, scalars_view(xs@)),
    ensures
        r@ == array_of(t, scalars_view(xs@)),
{
    let n = xs.len();
    let ghost sv = scalars_view(xs@);
    let mut k: usize = 0;
    match t {
        ChildFieldType::Boolean => {
            let mut v: Vec<Option<bool>> = Vec::new();
            while k < n
                invariant
                    n == xs@.len(),
                    sv == scalars_view(xs@),
                    k <= n,
                    all_conform(t, sv),
                    t == ChildFieldType::Boolean,
                    v@.map_values(|o: Option<bool>| bool_item(o)) =~= lift(sv).take(k as int),
                decreases n - k,
            {
                assert(scalar_conforms(t, sv[k as int]));
                let ghost old_v = v@;
                match &xs[k] {
                    Scalar::Boolean(b) => v.push(Some(*b)),
                    _ => assert(false),
                }
                assert(v@.map_values(|o: Option<bool>| bool_item(o)) =~= old_v.map_values(
                    |o: Option<bool>| bool_item(o),
                ).push(Some(sv[k as int])));
                assert(lift(sv).take(k + 1) =~= lift(sv).take(k as int).push(Some(sv[k as int])));
                k = k + 1;
            }
            assert(lift(sv).take(n as int) =~= lift(sv));
            ValueArray::Boolean(v)
        },
        ChildFieldType::Utf8 => {
            let mut v: Vec<Option<String>> = Vec::new();
            while k < n
                invariant
                    n == xs@.len(),
                    sv == scalars_view(xs@),
                    k <= n,
                    all_conform(t, sv),
                    t == ChildFieldType::Utf8,
                    v@.map_values(|o: Option<String>| utf8_item(o)) =~= lift(sv).take(k as int),
                decreases n - k,
            {
                assert(scalar_conforms(t, sv[k as int]));
                let ghost old_v = v@;
                match &xs[k] {
                    Scalar::Utf8(s) => v.push(Some(s.clone())),
                    _ => assert(false),
                }
                assert(v@.map_values(|o: Option<String>| utf8_item(o)) =~= old_v.map_values(
                    |o: Option<String>| utf8_item(o),
                ).push(Some(sv[k as int])));
                assert(lift(sv).take(k + 1) =~= lift(sv).take(k as int).push(Some(sv[k as int])));
                k = k + 1;
            }
            assert(lift(sv).take(n as int) =~= lift(sv));
            ValueArray::Utf8(v)
        },
        ChildFieldType::Float32 => {
            let mut v: Vec<Option<u32>> = Vec::new();
            while k < n
                invariant
                    n == xs@.len(),
                    sv == scalars_view(xs@),
                    k <= n,
                    all_conform(t, sv),
                    t == ChildFieldType::Float32,
                    v@.map_values(|o: Option<u32>| float_item(o)) =~= lift(sv).take(k as int),
                decreases n - k,
            {
                assert(scalar_conforms(t, sv[k as int]));
                let ghost old_v = v@;
                match &xs[k] {
                    Scalar::Float(f) => v.push(Some(*f)),
                    _ => assert(false),
                }
                assert(v@.map_values(|o: Option<u32>| float_item(o)) =~= old_v.map_values(
                    |o: Option<u32>| float_item(o),
                ).push(Some(sv[k as int])));
                assert(lift(sv).take(k + 1) =~= lift(sv).take(k as int).push(Some(sv[k as int])));
                k = k + 1;
            }
            assert(lift(sv).take(n as int) =~= lift(sv));
            ValueArray::Float32(v)
        },
        ChildFieldType::Int32 => {
            let mut v: Vec<Option<i32>> = Vec::new();
            while k < n
                invariant
                    n == xs@.len(),
                    sv == scalars_view(xs@),
                    k <= n,
                    all_conform(t, sv),
                    t == ChildFieldType::Int32,
                    v@.map_values(|o: Option<i32>| int32_item(o)) =~= lift(sv).take(k as int),
                decreases n - k,
            {
                assert(scalar_conforms(t, sv[k as int]));
                let ghost old_v = v@;
                match &xs[k] {
                    Scalar::Integer(x) => v.push(Some(*x as i32)),
                    _ => assert(false),
                }
                assert(v@.map_values(|o: Option<i32>| int32_item(o)) =~= old_v.map_values(
                    |o: Option<i32>| int32_item(o),
                ).push(Some(sv[k as int])));
                assert(lift(sv).take(k + 1) =~= lift(sv).take(k as int).push(Some(sv[k as int])));
                k = k + 1;
            }
            assert(lift(sv).take(n as int) =~= lift(sv));
            ValueArray::Int32(v)
        },
        ChildFieldType::Int64 => {
            let mut v: Vec<Option<i64>> = Vec::new();
            while k < n
                invariant
                    n == xs@.len(),
                    sv == scalars_view(xs@),
                    k <= n,
                    all_conform(t, sv),
                    t == ChildFieldType::Int64,
                    v@.map_values(|o: Option<i64>| int64_item(o)) =~= lift(sv).take(k as int),
                decreases n - k,
            {
                assert(scalar_conforms(t, sv[k as int]));
                let ghost old_v = v@;
                match &xs[k] {
                    Scalar::Integer(x) => v.push(Some(*x)),
                    _ => assert(false),
                }
                assert(v@.map_values(|o: Option<i64>| int64_item(o)) =~= old_v.map_values(
                    |o: Option<i64>| int64_item(o),
                ).push(Some(sv[k as int])));
                assert(lift(sv).take(k + 1) =~= lift(sv).take(k as int).push(Some(sv[k as int])));
                k = k + 1;
            }
            assert(lift(sv).take(n as int) =~= lift(sv));
            ValueArray::Int64(v)
        },
    }
}

/// Whether a scalar fits element type `t`.
pub fn scalar_fits(t: ChildFieldType, x: &Scalar) -> (r: bool)
    ensures
        r == scalar_conforms(t, x@),
{
    match (t, x) {
        (ChildFieldType::Boolean, Scalar::Boolean(_)) => true,
        (ChildFieldType::Utf8, Scalar::Utf8(_)) => true,
        (ChildFieldType::Float32, Scalar::Float(_)) => true,
        (ChildFieldType::Int32, Scalar::Integer(n)) => i32::MIN as i64 <= *n && *n <= i32::MAX as i64,
        (ChildFieldType::Int64, Scalar::Integer(_)) => true,
        _ => false,
    }
}

/// Whether every scalar of `xs` fits element type `t`.
pub fn all_fit(t: ChildFieldType, xs: &Vec<Scalar>) -> (r: bool)
    ensures
        r == all_conform(t, scalars_view(xs@)),
{
    let n = xs.len();
    let mut k: usize = 0;
    while k < n
        invariant
            n == xs@.len(),
            k <= n,
            forall|m: int| 0 <= m < k ==> scalar_conforms(t, #[trigger] scalars_view(xs@)[m]),
        decreases n - k,
    {
        if !scalar_fits(t, &xs[k]) {
            assert(!scalar_conforms(t, scalars_view(xs@)[k as int]));
            return false;
        }
        k = k + 1;
    }
    true
}

/// Whether a host value fits a field of type `ft`.
pub fn value_fits(ft: &FieldType, v: &TaggedValue) -> (r: bool)
    ensures
        r == value_conforms(*ft, v@),
{
    match ft {
        FieldType::List(c) => match v {
            TaggedValue::List(xs) => all_fit(c.field_type, xs),
            TaggedValue::Scalar(_) => false,
        },
        FieldType::FixedSizeList(c, d) => match v {
            TaggedValue::List(xs) => {
                let fits = all_fit(c.field_type, xs);
                fits && *d >= 0 && xs.len() == *d as usize
            },
            TaggedValue::Scalar(_) => false,
        },
        _ => match v {
            TaggedValue::Scalar(x) => scalar_fits(ft.element_type(), x),
            TaggedValue::List(_) => false,
        },
    }
}

/// Checks one cell of one row: the value is present and fits the field.
pub fn check_cell(rec: &TaggedRecord, field: &Field) -> (r: Result<(), Error>)
    ensures
        r is Ok <==> cell_ok(*field, record_view(rec@)),
        match r {
            Ok(_) => true,
            Err(e) => fault_is(e, *field, record_view(rec@)),
        },
{
    match find_entry(rec, &field.name) {
        None => Err(Error::FieldMissing { field: field.name.clone() }),
        Some(k) => {
            if value_fits(&field.field_type, &rec[k].1) {
                Ok(())
            } else {
                Err(Error::TypeMismatch { field: field.name.clone(), expected: field.field_type.kind() })
            }
        },
    }
}

/// The value that a record holds for a field it fits.
pub fn cell_value<'a>(rec: &'a TaggedRecord, field: &Field) -> (r: &'a TaggedValue)
    requires
        cell_ok(*field, record_view(rec@)),
    ensures
        r@ == value_for(record_view(rec@), field.name@),
        value_conforms(field.field_type, r@),
{
    match find_entry(rec, &field.name) {
        Some(k) => &rec[k].1,
        None => {
            assert(false);
            &rec[0].1
        },
    }
}

pub proof fn lemma_rows_view_index(rows: Seq<TaggedRecord>, i: int)
    requires
        0 <= i < rows.len(),
    ensures
        rows_view(rows)[i] == record_view(rows[i]@),
{
}

/// The column of one field over all rows, which all fit the field.
pub fn build_column(rows: &Vec<TaggedRecord>, field: &Field) -> (r: ColumnArray)
    requires
        forall|i: int| 0 <= i < rows@.len() ==> cell_ok(*field, #[trigger] rows_view(rows@)[i]),
    ensures
        r@ == column_of(field.field_type, column_values(rows_view(rows@), field.name@)),
{
    let n = rows.len();
    let ghost vals = column_values(rows_view(rows@), field.name@);
    match &field.field_type {
        FieldType::List(c) | FieldType::FixedSizeList(c, _) => {
            let ct = c.field_type;
            let mut out: Vec<ValueArray> = Vec::new();
            let mut i: usize = 0;
            while i < n
                invariant
                    n == rows@.len(),
                    i <= n,
                    vals == column_values(rows_view(rows@), field.name@),
                    field.field_type is List || field.field_type is FixedSizeList,
                    ct == element_type(field.field_type),
                    forall|i: int| 0 <= i < rows@.len() ==> cell_ok(*field, #[trigger] rows_view(rows@)[i]),
                    crate::column::arrays_view(out@) =~= vals.take(i as int).map_values(
                        |v: TaggedValueV| array_of(ct, items_of(v)),
                    ),
                decreases n - i,
            {
                proof { lemma_rows_view_index(rows@, i as int); }
                assert(cell_ok(*field, rows_view(rows@)[i as int]));
                let v = cell_value(&rows[i], field);
                let ghost old_out = out@;
                match v {
                    TaggedValue::List(xs) => {
                        let a = values_of(ct, xs);
                        out.push(a);
                    },
                    TaggedValue::Scalar(_) => assert(false),
                }
                assert(vals[i as int] == v@);
                assert(crate::column::arrays_view(out@) =~= crate::column::arrays_view(old_out).push(
                    out@[i as int]@,
                ));
                assert(vals.take(i + 1) =~= vals.take(i as int).push(vals[i as int]));
                assert(vals.take(i + 1).map_values(|v: TaggedValueV| array_of(ct, items_of(v)))
                    =~= vals.take(i as int).map_values(|v: TaggedValueV| array_of(ct, items_of(v))).push(
                    array_of(ct, items_of(vals[i as int])),
                ));
                i = i + 1;
            }
            assert(vals.take(n as int) =~= vals);
            match &field.field_type {
                FieldType::List(_) => ColumnArray::List(out),
                FieldType::FixedSizeList(_, d) => ColumnArray::FixedSizeList(out, *d),
                _ => {
                    assert(false);
                    ColumnArray::List(out)
                },
            }
        },
        _ => {
            let t = field.field_type.element_type();
            let mut xs: Vec<Scalar> = Vec::new();
            let mut i: usize = 0;
            while i < n
                invariant
                    n == rows@.len(),
                    i <= n,
                    vals == column_values(rows_view(rows@), field.name@),
                    !(field.field_type is List || field.field_type is FixedSizeList),
                    t == element_type(field.field_type),
                    forall|i: int| 0 <= i < rows@.len() ==> cell_ok(*field, #[trigger] rows_view(rows@)[i]),
                    scalars_view(xs@) =~= vals.take(i as int).map_values(|v: TaggedValueV| scalar_of(v)),
                    all_conform(t, scalars_view(xs@)),
                decreases n - i,
            {
                proof { lemma_rows_view_index(rows@, i as int); }
                assert(cell_ok(*field, rows_view(rows@)[i as int]));
                let v = cell_value(&rows[i], field);
                let ghost old_xs = xs@;
                match v {
                    TaggedValue::Scalar(x) => {
                        let y = copy_scalar(x);
                        xs.push(y);
                    },
                    TaggedValue::List(_) => assert(false),
                }
                assert(vals[i as int] == v@);
                assert(scalars_view(xs@) =~= scalars_view(old_xs).push(scalar_of(v@)));
                assert(vals.take(i + 1) =~= vals.take(i as int).push(vals[i as int]));
                assert(vals.take(i + 1).map_values(|v: TaggedValueV| scalar_of(v))
                    =~= vals.take(i as int).map_values(|v: TaggedValueV| scalar_of(v)).push(
                    scalar_of(vals[i as int]),
                ));
                assert(all_conform(t, scalars_view(xs@))) by {
                    assert forall|m: int| 0 <= m < scalars_view(xs@).len() implies scalar_conforms(
                        t,
                        #[trigger] scalars_view(xs@)[m],
                    ) by {
                        if m < i {
                            assert(scalars_view(xs@)[m] == scalars_view(old_xs)[m]);
                        }
                    }
                }
                i = i + 1;
            }
            assert(vals.take(n as int) =~= vals);
            ColumnArray::Primitive(values_of(t, &xs))
        },
    }
}

/// Number of rows of a column built from `vals`: one per value.
pub proof fn lemma_column_len(ft: FieldType, vals: Seq<TaggedValueV>)
    ensures
        crate::column::column_len(column_of(ft, vals)) == vals.len(),
{
}

/// Encodes host rows into one typed column per schema field, in schema
/// order. Values are looked up by field name. The first cell, in row-major
/// order, that is missing or does not fit its field fails the whole call.
pub fn to_arrow(rows: &Vec<TaggedRecord>, schema: &Schema) -> (r: Result<Vec<ColumnArray>, Error>)
    ensures
        r is Ok <==> rows_conform(schema.fields@, rows_view(rows@)),
        match r {
            Ok(cols) => {
                &&& encoded(schema.fields@, rows_view(rows@), cols@)
                &&& forall|j: int|
                    0 <= j < cols@.len() ==> crate::column::column_len(#[trigger] cols@[j]@)
                        == rows@.len()
            },
            Err(e) => encode_error(schema.fields@, rows_view(rows@), e),
        },
{
    let fields = &schema.fields;
    let n = rows.len();
    let m = fields.len();
    let ghost rv = rows_view(rows@);
    let mut i: usize = 0;
    while i < n
        invariant
            n == rows@.len(),
            m == fields@.len(),
            fields == &schema.fields,
            rv == rows_view(rows@),
            i <= n,
            forall|i2: int, j2: int|
                0 <= i2 < i && 0 <= j2 < m ==> cell_ok(#[trigger] fields@[j2], #[trigger] rv[i2]),
        decreases n - i,
    {
        let mut j: usize = 0;
        while j < m
            invariant
                n == rows@.len(),
                m == fields@.len(),
                fields == &schema.fields,
                rv == rows_view(rows@),
                i < n,
                j <= m,
                forall|i2: int, j2: int|
                    0 <= i2 < i && 0 <= j2 < m ==> cell_ok(#[trigger] fields@[j2], #[trigger] rv[i2]),
                forall|j2: int| 0 <= j2 < j ==> cell_ok(#[trigger] fields@[j2], rv[i as int]),
            decreases m - j,
        {
            proof { lemma_rows_view_index(rows@, i as int); }
            match check_cell(&rows[i], &fields[j]) {
                Ok(_) => {},
                Err(e) => {
                    assert(first_fault(schema.fields@, rv, i as int, j as int));
                    return Err(e);
                },
            }
            j = j + 1;
        }
        i = i + 1;
    }
    let mut cols: Vec<ColumnArray> = Vec::new();
    let mut j: usize = 0;
    while j < m
        invariant
            n == rows@.len(),
            m == fields@.len(),
            fields == &schema.fields,
            rv == rows_view(rows@),
            j <= m,
            forall|i2: int, j2: int|
                0 <= i2 < n && 0 <= j2 < m ==> cell_ok(#[trigger] fields@[j2], #[trigger] rv[i2]),
            cols@.len() == j,
            forall|j2: int|
                0 <= j2 < j ==> (#[trigger] cols@[j2])@ == column_of(
                    fields@[j2].field_type,
                    column_values(rv, fields@[j2].name@),
                ),
        decreases m - j,
    {
        let c = build_column(rows, &fields[j]);
        cols.push(c);
        j = j + 1;
    }
    proof {
        assert forall|j2: int| 0 <= j2 < cols@.len() implies crate::column::column_len(
            #[trigger] cols@[j2]@,
        ) == rows@.len() by {
            lemma_column_len(fields@[j2].field_type, column_values(rv, fields@[j2].name@));
        }
    }
    Ok(cols)
}

/// Encodes host rows under the storage engine's own schema. A field type
/// outside the supported set fails the call as not supported; otherwise the
/// rows are encoded as `to_arrow` does under the corresponding schema.
pub fn to_arrow_for(rows: &Vec<TaggedRecord>, native: &NativeSchema) -> (r: Result<
    Vec<ColumnArray>,
    Error,
>)
    ensures
        !all_supported(*native) ==> (r matches Err(e) && first_unsupported_error(*native, e)),
        all_supported(*native) ==> exists|s: Schema|
            {
                &&& schema_matches(*native, s)
                &&& (r is Ok <==> rows_conform(s.fields@, rows_view(rows@)))
                &&& match r {
                    Ok(cols) => encoded(s.fields@, rows_view(rows@), cols@),
                    Err(e) => encode_error(s.fields@, rows_view(rows@), e),
                }
            },
{
    let schema = Schema::try_from_arrow(native)?;
    let r = to_arrow(rows, &schema);
    assert(schema_matches(*native, schema));
    r
}

} // verus!
