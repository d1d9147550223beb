//! Columnar arrays as plain values: what the codec reads of, and writes to,
//! the storage engine's typed arrays.
use crate::schema::ChildFieldType;
use crate::value::ScalarV;
use vstd::prelude::*;

verus! {

/// A typed primitive array: the values of one column, or of one row of a
/// nested column. `None` is a null slot.
#[derive(Clone, Debug)]
pub enum ValueArray {
    Boolean(Vec<Option<bool>>),
    Utf8(Vec<Option<String>>),
    /// Bit patterns of 32-bit floats.
    Float32(Vec<Option<u32>>),
    Int32(Vec<Option<i32>>),
    Int64(Vec<Option<i64>>),
}

/// What a typed array holds: its element type and, per slot, the host scalar
/// it stands for (or `None` for a null).
pub struct ValuesV {
    pub kind: ChildFieldType,
    pub items: Seq<Option<ScalarV>>,
}

pub open spec fn bool_item(o: Option<bool>) -> Option<ScalarV> {
    match o {
        Some(b) => Some(ScalarV::Boolean(b)),
        None => None,
    }
}

pub open spec fn utf8_item(o: Option<String>) -> Option<ScalarV> {
    match o {
        Some(s) => Some(ScalarV::Utf8(s@)),
        None => None,
    }
}

pub open spec fn float_item(o: Option<u32>) -> Option<ScalarV> {
    match o {
        Some(f) => Some(ScalarV::Float(f)),
        None => None,
    }
}

pub open spec fn int32_item(o: Option<i32>) -> Option<ScalarV> {
    match o {
        Some(n) => Some(ScalarV::Integer(n as i64)),
        None => None,
    }
}

pub open spec fn int64_item(o: Option<i64>) -> Option<ScalarV> {
    match o {
        Some(n) => Some(ScalarV::Integer(n)),
        None => None,
    }
}

impl View for ValueArray {
    type V = ValuesV;

    open spec fn view(&self) -> ValuesV {
        match self {
            ValueArray::Boolean(v) => ValuesV {
                kind: ChildFieldType::Boolean,
                items: v@.map_values(|o: Option<bool>| bool_item(o)),
            },
            ValueArray::Utf8(v) => ValuesV {
                kind: ChildFieldType::Utf8,
                items: v@.map_values(|o: Option<String>| utf8_item(o)),
            },
            ValueArray::Float32(v) => ValuesV {
                kind: ChildFieldType::Float32,
                items: v@.map_values(|o: Option<u32>| float_item(o)),
            },
            ValueArray::Int32(v) => ValuesV {
                kind: ChildFieldType::Int32,
                items: v@.map_values(|o: Option<i32>| int32_item(o)),
            },
            ValueArray::Int64(v) => ValuesV {
                kind: ChildFieldType::Int64,
                items: v@.map_values(|o: Option<i64>| int64_item(o)),
            },
        }
    }
}

impl ValueArray {
    /// Number of slots.
    pub fn len(&self) -> (r: usize)
        ensures
            r == self@.items.len(),
    {
        match self {
            ValueArray::Boolean(v) => v.len(),
            ValueArray::Utf8(v) => v.len(),
            ValueArray::Float32(v) => v.len(),
            ValueArray::Int32(v) => v.len(),
            ValueArray::Int64(v) => v.len(),
        }
    }

    /// The element type.
    pub fn kind(&self) -> (r: ChildFieldType)
        ensures
            r == self@.kind,
    {
        match self {
            ValueArray::Boolean(_) => ChildFieldType::Boolean,
            ValueArray::Utf8(_) => ChildFieldType::Utf8,
            ValueArray::Float32(_) => ChildFieldType::Float32,
            ValueArray::Int32(_) => ChildFieldType::Int32,
            ValueArray::Int64(_) => ChildFieldType::Int64,
        }
    }
}

/// One column of a batch: primitive, or one child array per row.
#[derive(Clone, Debug)]
pub enum ColumnArray {
    Primitive(ValueArray),
    List(Vec<ValueArray>),
    FixedSizeList(Vec<ValueArray>, i32),
    /// A column of a type the codec does not read, with its row count.
    Other(usize),
}

pub enum ColumnV {
    Primitive(ValuesV),
    List(Seq<ValuesV>),
    FixedSizeList(Seq<ValuesV>, i32),
    Other(nat),
}

pub open spec fn arrays_view(v: Seq<ValueArray>) -> Seq<ValuesV> {
    v.map_values(|a: ValueArray| a@)
}

impl View for ColumnArray {
    type V = ColumnV;

    open spec fn view(&self) -> ColumnV {
        match self {
            ColumnArray::Primitive(a) => ColumnV::Primitive(a@),
            ColumnArray::List(v) => ColumnV::List(arrays_view(v@)),
            ColumnArray::FixedSizeList(v, d) => ColumnV::FixedSizeList(arrays_view(v@), *d),
            ColumnArray::Other(n) => ColumnV::Other(*n as nat),
        }
    }
}

/// Number of rows of a column.
pub open spec fn column_len(c: ColumnV) -> nat {
    match c {
        ColumnV::Primitive(a) => a.items.len(),
        ColumnV::List(rows) => rows.len(),
        ColumnV::FixedSizeList(rows, _) => rows.len(),
        ColumnV::Other(n) => n,
    }
}

impl ColumnArray {
    /// Number of rows.
    pub fn len(&self) -> (r: usize)
        ensures
            r == column_len(self@),
    {
        match self {
            ColumnArray::Primitive(a) => a.len(),
            ColumnArray::List(v) => v.len(),
            ColumnArray::FixedSizeList(v, _) => v.len(),
            ColumnArray::Other(n) => *n,
        }
    }
}

/// A batch of rows as the storage engine hands it out: a row count and one
/// column per field, in field order.
#[derive(Clone, Debug)]
pub struct RecordBatch {
    pub num_rows: usize,
    pub columns: Vec<ColumnArray>,
}

} // verus!
