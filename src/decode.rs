use crate::column::{ColumnArray, ColumnV, RecordBatch, ValueArray, ValuesV};
use crate::error::Error;
use crate::native::NativeSchema;
use crate::schema::{
    all_supported, element_type, first_unsupported_error, schema_matches, ChildFieldType, Field,
    FieldType, Schema,
};
use crate::value::{record_view, rows_view, scalars_view, RecordV, Scalar, ScalarV, TaggedRecord, TaggedValue, TaggedValueV};
use vstd::prelude::*;

verus! {

/// The neutral value of an element type, read in place of a null or of a
/// value of another type.
pub open spec fn default_scalar(t: ChildFieldType) -> ScalarV {
    match t {
        ChildFieldType::Boolean => ScalarV::Boolean(false),
        ChildFieldType::Utf8 => ScalarV::Utf8(Seq::empty()),
        ChildFieldType::Float32 => ScalarV::Float(0),
        ChildFieldType::Int32 => ScalarV::Integer(0),
        ChildFieldType::Int64 => ScalarV::Integer(0),
    }
}

/// Slot `i` of array `a` read as type `t`.
pub open spec fn read_scalar(a: ValuesV, t: ChildFieldType, i: int) -> ScalarV {
    if a.kind == t && 0 <= i < a.items.len() {
        match a.items[i] {
            Some(x) => x,
            None => default_scalar(t),
        }
    } else {
        default_scalar(t)
    }
}

/// All slots of `a` read as type `t`; an array of another type reads as empty.
pub open spec fn read_list(a: ValuesV, t: ChildFieldType) -> Seq<ScalarV> {
    if a.kind == t {
        Seq::new(a.items.len(), |k: int| read_scalar(a, t, k))
    } else {
        Seq::empty()
    }
}

/// Row `i` of a column read as a field of type `ft`; `None` is a column
/// that the batch lacks.
pub open spec fn read_cell(ft: FieldType, col: Option<ColumnV>, i: int) -> TaggedValueV {
    match ft {
        FieldType::List(c) => match col {
            Some(ColumnV::List(rows)) => if 0 <= i < rows.len() {
                TaggedValueV::List(read_list(rows[i], c.field_type))
            } else {
                TaggedValueV::List(Seq::empty())
            },
            _ => TaggedValueV::List(Seq::empty()),
        },
        FieldType::FixedSizeList(c, _) => match col {
            Some(ColumnV::FixedSizeList(rows, _)) => if 0 <= i < rows.len() {
                TaggedValueV::List(read_list(rows[i], c.field_type))
            } else {
                TaggedValueV::List(Seq::empty())
            },
            _ => TaggedValueV::List(Seq::empty()),
        },
        _ => match col {
            Some(ColumnV::Primitive(a)) => TaggedValueV::Scalar(
                read_scalar(a, element_type(ft), i),
            ),
            _ => TaggedValueV::Scalar(default_scalar(element_type(ft))),
        },
    }
}

pub open spec fn batch_column(b: RecordBatch, j: int) -> Option<ColumnV> {
    if 0 <= j < b.columns@.len() {
        Some(b.columns@[j]@)
    } else {
        None
    }
}

/// Row `i` of a batch: every field, in schema order, under its name.
pub open spec fn decode_row(fields: Seq<Field>, b: RecordBatch, i: int) -> RecordV {
    Seq::new(
        fields.len(),
        |j: int| (fields[j].name@, read_cell(fields[j].field_type, batch_column(b, j), i)),
    )
}

pub open spec fn decode_batch(fields: Seq<Field>, b: RecordBatch) -> Seq<RecordV> {
    Seq::new(b.num_rows as nat, |i: int| decode_row(fields, b, i))
}

/// The rows of all batches, batch after batch.
pub open spec fn decode_batches(fields: Seq<Field>, bs: Seq<RecordBatch>) -> Seq<RecordV>
    decreases bs.len(),
{
    if bs.len() == 0 {
        Seq::empty()
    } else {
        decode_batches(fields, bs.drop_last()) + decode_batch(fields, bs.last())
    }
}

pub fn default_scalar_of(t: ChildFieldType) -> (r: Scalar)
    ensures
        r@ == default_scalar(t),
{
    match t {
        ChildFieldType::Boolean => Scalar::Boolean(false),
        ChildFieldType::Utf8 => Scalar::Utf8(String::new()),
        ChildFieldType::Float32 => Scalar::Float(0),
        ChildFieldType::Int32 => Scalar::Integer(0),
        ChildFieldType::Int64 => Scalar::Integer(0),
    }
}

/// Reads slot `i` of `a` as type `t`, with the neutral value for a null, an
/// index out of range or an array of another type.
pub fn read_scalar_at(a: &ValueArray, t: ChildFieldType, i: usize) -> (r: Scalar)
    ensures
        r@ == read_scalar(a@, t, i as int),
{
    match a {
        ValueArray::Boolean(v) => if t == ChildFieldType::Boolean && i < v.len() {
            match v[i] {
                Some(b) => Scalar::Boolean(b),
                None => Scalar::Boolean(false),
            }
        } else {
            default_scalar_of(t)
        },
        ValueArray::Utf8(v) => if t == ChildFieldType::Utf8 && i < v.len() {
            match &v[i] {
                Some(s) => Scalar::Utf8(s.clone()),
                None => Scalar::Utf8(String::new()),
            }
        } else {
            default_scalar_of(t)
        },
        ValueArray::Float32(v) => if t == ChildFieldType::Float32 && i < v.len() {
            match v[i] {
                Some(f) => Scalar::Float(f),
                None => Scalar::Float(0),
            }
        } else {
            default_scalar_of(t)
        },
        ValueArray::Int32(v) => if t == ChildFieldType::Int32 && i < v.len() {
            match v[i] {
                Some(n) => Scalar::Integer(n as i64),
                None => Scalar::Integer(0),
            }
        } else {
            default_scalar_of(t)
        },
        ValueArray::Int64(v) => if t == ChildFieldType::Int64 && i < v.len() {
            match v[i] {
                Some(n) => Scalar::Integer(n),
                None => Scalar::Integer(0),
            }
        } else {
            default_scalar_of(t)
        },
    }
}

/// Reads every slot of `a` as type `t`.
pub fn read_list_of(a: &ValueArray, t: ChildFieldType) -> (r: Vec<Scalar>)
    ensures
        scalars_view(r@) == read_list(a@, t),
{
    let mut out: Vec<Scalar> = Vec::new();
    if a.kind() != t {
        assert(scalars_view(out@) =~= read_list(a@, t));
        return out;
    }
    let n = a.len();
    let mut k: usize = 0;
    while k < n
        invariant
            n == a@.items.len(),
            a@.kind == t,
            k <= n,
            scalars_view(out@) =~= Seq::new(k as nat, |m: int| read_scalar(a@, t, m)),
        decreases n - k,
    {
        let x = read_scalar_at(a, t, k);
        let ghost old_out = out@;
        out.push(x);
        assert(scalars_view(out@) =~= scalars_view(old_out).push(x@));
        k = k + 1;
    }
    out
}

/// Reads row `i` of column `j` of a batch as a field of type `ft`.
pub fn read_cell_at(ft: &FieldType, b: &RecordBatch, j: usize, i: usize) -> (r: TaggedValue)
    ensures
        r@ == read_cell(*ft, batch_column(*b, j as int), i as int),
{
    if j >= b.columns.len() {
        return match ft {
            FieldType::List(_) | FieldType::FixedSizeList(_, _) => {
                let v: Vec<Scalar> = Vec::new();
                assert(scalars_view(v@) =~= Seq::empty());
                TaggedValue::List(v)
            },
            _ => TaggedValue::Scalar(default_scalar_of(ft.element_type())),
        };
    }
    let col = &b.columns[j];
    match ft {
        FieldType::List(c) => match col {
            ColumnArray::List(rows) => if i < rows.len() {
                TaggedValue::List(read_list_of(&rows[i], c.field_type))
            } else {
                let v: Vec<Scalar> = Vec::new();
                assert(scalars_view(v@) =~= Seq::empty());
                TaggedValue::List(v)
            },
            _ => {
                let v: Vec<Scalar> = Vec::new();
                assert(scalars_view(v@) =~= Seq::empty());
                TaggedValue::List(v)
            },
        },
        FieldType::FixedSizeList(c, _) => match col {
            ColumnArray::FixedSizeList(rows, _) => if i < rows.len() {
                TaggedValue::List(read_list_of(&rows[i], c.field_type))
            } else {
                let v: Vec<Scalar> = Vec::new();
                assert(scalars_view(v@) =~= Seq::empty());
                TaggedValue::List(v)
            },
            _ => {
                let v: Vec<Scalar> = Vec::new();
                assert(scalars_view(v@) =~= Seq::empty());
                TaggedValue::List(v)
            },
        },
        _ => match col {
            ColumnArray::Primitive(a) => TaggedValue::Scalar(
                read_scalar_at(a, ft.element_type(), i),
            ),
            _ => TaggedValue::Scalar(default_scalar_of(ft.element_type())),
        },
    }
}

/// Decodes row `i` of a batch into a record holding every schema field.
pub fn decode_row_at(fields: &Vec<Field>, b: &RecordBatch, i: usize) -> (r: TaggedRecord)
    ensures
        record_view(r@) == decode_row(fields@, *b, i as int),
{
    let m = fields.len();
    let mut rec: TaggedRecord = Vec::new();
    let mut j: usize = 0;
    while j < m
        invariant
            m == fields@.len(),
            j <= m,
            record_view(rec@) =~= decode_row(fields@, *b, i as int).take(j as int),
        decreases m - j,
    {
        let v = read_cell_at(&fields[j].field_type, b, j, i);
        rec.push((fields[j].name.clone(), v));
        assert(decode_row(fields@, *b, i as int).take(j + 1) =~= decode_row(
            fields@,
            *b,
            i as int,
        ).take(j as int).push(decode_row(fields@, *b, i as int)[j as int]));
        j = j + 1;
    }
    assert(decode_row(fields@, *b, i as int).take(m as int) =~= decode_row(fields@, *b, i as int));
    rec
}

/// Decodes batches into host records, batch after batch and row after row.
/// Each record holds every schema field, in schema order, matched to the
/// batch's columns by position. A null, a missing column or a column of
/// another type reads as the neutral value of the field's type (an empty
/// sequence for nested fields).
pub fn from_arrow(batches: &Vec<RecordBatch>, schema: &Schema) -> (r: Vec<TaggedRecord>)
    ensures
        rows_view(r@) == decode_batches(schema.fields@, batches@),
{
    let fields = &schema.fields;
    let mut out: Vec<TaggedRecord> = Vec::new();
    let nb = batches.len();
    let mut b: usize = 0;
    while b < nb
        invariant
            nb == batches@.len(),
            b <= nb,
            fields == &schema.fields,
            rows_view(out@) =~= decode_batches(fields@, batches@.take(b as int)),
        decreases nb - b,
    {
        let batch = &batches[b];
        let ghost before = rows_view(out@);
        let n = batch.num_rows;
        let mut i: usize = 0;
        while i < n
            invariant
                nb == batches@.len(),
                b < nb,
                fields == &schema.fields,
                batch == &batches@[b as int],
                n == batch.num_rows,
                i <= n,
                rows_view(out@) =~= before + decode_batch(fields@, *batch).take(i as int),
            decreases n - i,
        {
            let rec = decode_row_at(fields, batch, i);
            let ghost old_out = out@;
            out.push(rec);
            assert(rows_view(out@) =~= rows_view(old_out).push(record_view(rec@)));
            assert(decode_batch(fields@, *batch).take(i + 1) =~= decode_batch(fields@, *batch).take(
                i as int,
            ).push(decode_row(fields@, *batch, i as int)));
            i = i + 1;
        }
        assert(batches@.take(b + 1).drop_last() =~= batches@.take(b as int));
        assert(decode_batch(fields@, *batch).take(n as int) =~= decode_batch(fields@, *batch));
        b = b + 1;
    }
    assert(batches@.take(nb as int) =~= batches@);
    out
}

/// Decodes batches under the storage engine's own schema. A field type
/// outside the supported set aborts the whole decode as not supported;
/// otherwise the batches decode as `from_arrow` does under the
/// corresponding schema.
pub fn from_arrow_for(batches: &Vec<RecordBatch>, native: &NativeSchema) -> (r: Result<
    Vec<TaggedRecord>,
    Error,
>)
    ensures
        r is Ok <==> all_supported(*native),
        match r {
            Ok(recs) => exists|s: Schema|
                schema_matches(*native, s) && rows_view(recs@) == decode_batches(s.fields@, batches@),
            Err(e) => first_unsupported_error(*native, e),
        },
{
    let schema = Schema::try_from_arrow(native)?;
    let recs = from_arrow(batches, &schema);
    assert(schema_matches(*native, schema));
    Ok(recs)
}

} // verus!
