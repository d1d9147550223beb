use crate::schema::{element_type, ChildFieldType, Field, FieldType};
use vstd::prelude::*;

verus! {

/// A single dynamically tagged host value.
#[derive(Clone, Debug)]
pub enum Scalar {
    Boolean(bool),
    Integer(i64),
    /// The bit pattern of a 32-bit float.
    Float(u32),
    Utf8(String),
    /// Any host value of a kind the codec does not accept.
    Other,
}

pub enum ScalarV {
    Boolean(bool),
    Integer(i64),
    Float(u32),
    Utf8(Seq<char>),
    Other,
}

impl View for Scalar {
    type V = ScalarV;

    open spec fn view(&self) -> ScalarV {
        match self {
            Scalar::Boolean(b) => ScalarV::Boolean(*b),
            Scalar::Integer(n) => ScalarV::Integer(*n),
            Scalar::Float(f) => ScalarV::Float(*f),
            Scalar::Utf8(s) => ScalarV::Utf8(s@),
            Scalar::Other => ScalarV::Other,
        }
    }
}

/// A host value: a scalar or a homogeneous one-level sequence of scalars.
#[derive(Clone, Debug)]
pub enum TaggedValue {
    Scalar(Scalar),
    List(Vec<Scalar>),
}

pub enum TaggedValueV {
    Scalar(ScalarV),
    List(Seq<ScalarV>),
}

pub open spec fn scalars_view(xs: Seq<Scalar>) -> Seq<ScalarV> {
    xs.map_values(|x: Scalar| x@)
}

impl View for TaggedValue {
    type V = TaggedValueV;

    open spec fn view(&self) -> TaggedValueV {
        match self {
            TaggedValue::Scalar(s) => TaggedValueV::Scalar(s@),
            TaggedValue::List(xs) => TaggedValueV::List(scalars_view(xs@)),
        }
    }
}

/// One row as exchanged with the host: values keyed by field name.
pub type TaggedRecord = Vec<(String, TaggedValue)>;

pub type RecordV = Seq<(Seq<char>, TaggedValueV)>;

pub open spec fn record_view(rec: Seq<(String, TaggedValue)>) -> RecordV {
    rec.map_values(|p: (String, TaggedValue)| (p.0@, p.1@))
}

pub open spec fn rows_view(rows: Seq<TaggedRecord>) -> Seq<RecordV> {
    rows.map_values(|r: TaggedRecord| record_view(r@))
}

/// The value stored under `name`: the first entry with that key.
pub open spec fn lookup(rec: RecordV, name: Seq<char>) -> Option<TaggedValueV>
    decreases rec.len(),
{
    if rec.len() == 0 {
        None
    } else if rec[0].0 == name {
        Some(rec[0].1)
    } else {
        lookup(rec.drop_first(), name)
    }
}

/// The value under `name`, or `Other` where there is none.
pub open spec fn value_for(rec: RecordV, name: Seq<char>) -> TaggedValueV {
    match lookup(rec, name) {
        Some(v) => v,
        None => TaggedValueV::Scalar(ScalarV::Other),
    }
}

/// Whether a scalar is acceptable as an element of type `t`.
pub open spec fn scalar_conforms(t: ChildFieldType, x: ScalarV) -> bool {
    match (t, x) {
        (ChildFieldType::Boolean, ScalarV::Boolean(_)) => true,
        (ChildFieldType::Utf8, ScalarV::Utf8(_)) => true,
        (ChildFieldType::Float32, ScalarV::Float(_)) => true,
        (ChildFieldType::Int32, ScalarV::Integer(n)) => i32::MIN <= n <= i32::MAX,
        (ChildFieldType::Int64, ScalarV::Integer(_)) => true,
        _ => false,
    }
}

pub open spec fn all_conform(t: ChildFieldType, xs: Seq<ScalarV>) -> bool {
    forall|k: int| 0 <= k < xs.len() ==> scalar_conforms(t, #[trigger] xs[k])
}

/// Whether a host value is acceptable for a field of type `ft`. A value for a
/// `FixedSizeList` field must hold exactly `dimension` elements: a sequence of
/// another length is rejected rather than padded or cut.
pub open spec fn value_conforms(ft: FieldType, v: TaggedValueV) -> bool {
    match ft {
        FieldType::List(c) => match v {
            TaggedValueV::List(xs) => all_conform(c.field_type, xs),
            _ => false,
        },
        FieldType::FixedSizeList(c, d) => match v {
            TaggedValueV::List(xs) => all_conform(c.field_type, xs) && xs.len() == d as int,
            _ => false,
        },
        _ => match v {
            TaggedValueV::Scalar(x) => scalar_conforms(element_type(ft), x),
            _ => false,
        },
    }
}

/// Whether the record holds a value for the field, of the field's type.
pub open spec fn cell_ok(f: Field, rec: RecordV) -> bool {
    match lookup(rec, f.name@) {
        Some(v) => value_conforms(f.field_type, v),
        None => false,
    }
}

/// Every row holds a conforming value for every field.
pub open spec fn rows_conform(fields: Seq<Field>, rows: Seq<RecordV>) -> bool {
    forall|i: int, j: int|
        0 <= i < rows.len() && 0 <= j < fields.len() ==> cell_ok(#[trigger] fields[j], #[trigger] rows[i])
}

/// Index of the first entry whose key is `name`.
pub fn find_entry(rec: &TaggedRecord, name: &String) -> (r: Option<usize>)
    ensures
        match r {
            None => lookup(record_view(rec@), name@) is None,
            Some(k) => k < rec@.len() && rec@[k as int].0@ == name@
                && lookup(record_view(rec@), name@) == Some(rec@[k as int].1@),
        },
{
    let n = rec.len();
    let mut k: usize = 0;
    assert(record_view(rec@).subrange(0, n as int) =~= record_view(rec@));
    while k < n
        invariant
            n == rec@.len(),
            k <= n,
            lookup(record_view(rec@), name@) == lookup(record_view(rec@).subrange(k as int, n as int), name@),
        decreases n - k,
    {
        let ghost tail = record_view(rec@).subrange(k as int, n as int);
        assert(tail.drop_first() =~= record_view(rec@).subrange(k + 1, n as int));
        if rec[k].0 == *name {
            return Some(k);
        }
        k = k + 1;
    }
    None
}

/// A copy of a scalar.
pub fn copy_scalar(x: &Scalar) -> (r: Scalar)
    ensures
        r@ == x@,
{
    match x {
        Scalar::Boolean(b) => Scalar::Boolean(*b),
        Scalar::Integer(n) => Scalar::Integer(*n),
        Scalar::Float(f) => Scalar::Float(*f),
        Scalar::Utf8(s) => Scalar::Utf8(s.clone()),
        Scalar::Other => Scalar::Other,
    }
}

} // verus!
