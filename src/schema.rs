use crate::error::Error;
use crate::native::{NativeChildField, NativeChildType, NativeField, NativeSchema, NativeType};
use std::collections::HashMap;
use vstd::prelude::*;

verus! {

/// The primitive element types that a column, or the child of a nested
/// column, may hold.
#[derive(Clone, Copy, Debug, PartialEq, Eq, Structural)]
pub enum ChildFieldType {
    Boolean,
    Utf8,
    Float32,
    Int32,
    Int64,
}

/// The child of a `List` or `FixedSizeList` field: always primitive.
#[derive(Clone, Debug)]
pub struct ChildField {
    pub name: String,
    pub field_type: ChildFieldType,
    pub nullable: bool,
}

/// The type of a top-level field. Nesting goes one level deep only.
#[derive(Clone, Debug)]
pub enum FieldType {
    Boolean,
    Utf8,
    Float32,
    Int32,
    Int64,
    List(ChildField),
    FixedSizeList(ChildField, i32),
}

/// The variant of a field type, without its payload.
#[derive(Clone, Copy, Debug, PartialEq, Eq, Structural)]
pub enum FieldKind {
    Boolean,
    Utf8,
    Float32,
    Int32,
    Int64,
    List,
    FixedSizeList,
}

pub open spec fn kind_of(ft: FieldType) -> FieldKind {
    match ft {
        FieldType::Boolean => FieldKind::Boolean,
        FieldType::Utf8 => FieldKind::Utf8,
        FieldType::Float32 => FieldKind::Float32,
        FieldType::Int32 => FieldKind::Int32,
        FieldType::Int64 => FieldKind::Int64,
        FieldType::List(_) => FieldKind::List,
        FieldType::FixedSizeList(_, _) => FieldKind::FixedSizeList,
    }
}

/// A named, typed column of a table.
#[derive(Clone, Debug)]
pub struct Field {
    pub name: String,
    pub field_type: FieldType,
    pub nullable: bool,
}

/// Ordered fields (their order is the column order) and free-form metadata.
#[derive(Clone, Debug)]
pub struct Schema {
    pub fields: Vec<Field>,
    pub metadata: HashMap<String, String>,
}

/// The element type of a primitive field type; nested types map to the type
/// of their child.
pub open spec fn element_type(ft: FieldType) -> ChildFieldType {
    match ft {
        FieldType::Boolean => ChildFieldType::Boolean,
        FieldType::Utf8 => ChildFieldType::Utf8,
        FieldType::Float32 => ChildFieldType::Float32,
        FieldType::Int32 => ChildFieldType::Int32,
        FieldType::Int64 => ChildFieldType::Int64,
        FieldType::List(c) => c.field_type,
        FieldType::FixedSizeList(c, _) => c.field_type,
    }
}

impl FieldType {
    /// The variant of this type.
    pub fn kind(&self) -> (r: FieldKind)
        ensures
            r == kind_of(*self),
    {
        match self {
            FieldType::Boolean => FieldKind::Boolean,
            FieldType::Utf8 => FieldKind::Utf8,
            FieldType::Float32 => FieldKind::Float32,
            FieldType::Int32 => FieldKind::Int32,
            FieldType::Int64 => FieldKind::Int64,
            FieldType::List(_) => FieldKind::List,
            FieldType::FixedSizeList(_, _) => FieldKind::FixedSizeList,
        }
    }

    /// The element type of values of this type (the child's type for nested types).
    pub fn element_type(&self) -> (r: ChildFieldType)
        ensures
            r == element_type(*self),
    {
        match self {
            FieldType::Boolean => ChildFieldType::Boolean,
            FieldType::Utf8 => ChildFieldType::Utf8,
            FieldType::Float32 => ChildFieldType::Float32,
            FieldType::Int32 => ChildFieldType::Int32,
            FieldType::Int64 => ChildFieldType::Int64,
            FieldType::List(c) => c.field_type,
            FieldType::FixedSizeList(c, _) => c.field_type,
        }
    }
}

pub open spec fn child_type_matches(n: NativeChildType, t: ChildFieldType) -> bool {
    match (n, t) {
        (NativeChildType::Boolean, ChildFieldType::Boolean) => true,
        (NativeChildType::Utf8, ChildFieldType::Utf8) => true,
        (NativeChildType::Float32, ChildFieldType::Float32) => true,
        (NativeChildType::Int32, ChildFieldType::Int32) => true,
        (NativeChildType::Int64, ChildFieldType::Int64) => true,
        _ => false,
    }
}

pub open spec fn child_matches(n: NativeChildField, c: ChildField) -> bool {
    &&& n.name@ == c.name@
    &&& n.nullable == c.nullable
    &&& child_type_matches(n.data_type, c.field_type)
}

/// The native type `n` and the field type `ft` describe the same type.
pub open spec fn type_matches(n: NativeType, ft: FieldType) -> bool {
    match (n, ft) {
        (NativeType::Boolean, FieldType::Boolean) => true,
        (NativeType::Utf8, FieldType::Utf8) => true,
        (NativeType::Float32, FieldType::Float32) => true,
        (NativeType::Int32, FieldType::Int32) => true,
        (NativeType::Int64, FieldType::Int64) => true,
        (NativeType::List(nc), FieldType::List(c)) => child_matches(nc, c),
        (NativeType::FixedSizeList(nc, d1), FieldType::FixedSizeList(c, d2)) => child_matches(nc, c)
            && d1 == d2,
        _ => false,
    }
}

pub open spec fn field_matches(n: NativeField, f: Field) -> bool {
    &&& n.name@ == f.name@
    &&& n.nullable == f.nullable
    &&& type_matches(n.data_type, f.field_type)
}

/// Same fields in the same order, and the same metadata.
pub open spec fn schema_matches(n: NativeSchema, s: Schema) -> bool {
    &&& n.fields@.len() == s.fields@.len()
    &&& forall|j: int| 0 <= j < n.fields@.len() ==> field_matches(#[trigger] n.fields@[j], s.fields@[j])
    &&& n.metadata@ == s.metadata@
}

pub open spec fn child_supported(n: NativeChildType) -> bool {
    !(n is Other)
}

/// Whether the codec supports a native type: a primitive, or a list of a primitive.
pub open spec fn type_supported(n: NativeType) -> bool {
    match n {
        NativeType::Other(_) => false,
        NativeType::List(c) => child_supported(c.data_type),
        NativeType::FixedSizeList(c, _) => child_supported(c.data_type),
        _ => true,
    }
}

/// The name of the unsupported type inside `n`.
pub open spec fn unsupported_name(n: NativeType) -> Seq<char> {
    match n {
        NativeType::Other(s) => s@,
        NativeType::List(c) => child_unsupported_name(c.data_type),
        NativeType::FixedSizeList(c, _) => child_unsupported_name(c.data_type),
        _ => Seq::empty(),
    }
}

pub open spec fn child_unsupported_name(n: NativeChildType) -> Seq<char> {
    match n {
        NativeChildType::Other(s) => s@,
        _ => Seq::empty(),
    }
}

pub open spec fn is_unsupported_error(e: Error, name: Seq<char>) -> bool {
    match e {
        Error::UnsupportedType { found } => found@ == name,
        _ => false,
    }
}

/// Every field of the native schema has a supported type.
pub open spec fn all_supported(n: NativeSchema) -> bool {
    forall|j: int| 0 <= j < n.fields@.len() ==> type_supported(#[trigger] n.fields@[j].data_type)
}

/// `e` reports the first field of `n` whose type is not supported.
pub open spec fn first_unsupported_error(n: NativeSchema, e: Error) -> bool {
    exists|j: int|
        0 <= j < n.fields@.len() && !type_supported(n.fields@[j].data_type) && (forall|k: int|
            0 <= k < j ==> type_supported(#[trigger] n.fields@[k].data_type)) && is_unsupported_error(
            e,
            unsupported_name(n.fields@[j].data_type),
        )
}

impl ChildFieldType {
    /// The native element type.
    pub fn into_arrow(&self) -> (r: NativeChildType)
        ensures
            child_type_matches(r, *self),
    {
        match self {
            ChildFieldType::Boolean => NativeChildType::Boolean,
            ChildFieldType::Utf8 => NativeChildType::Utf8,
            ChildFieldType::Float32 => NativeChildType::Float32,
            ChildFieldType::Int32 => NativeChildType::Int32,
            ChildFieldType::Int64 => NativeChildType::Int64,
        }
    }

    /// The element type of a native element type; anything else is not supported.
    pub fn try_from_arrow(n: &NativeChildType) -> (r: Result<ChildFieldType, Error>)
        ensures
            r is Ok <==> child_supported(*n),
            match r {
                Ok(t) => child_type_matches(*n, t),
                Err(e) => is_unsupported_error(e, child_unsupported_name(*n)),
            },
    {
        match n {
            NativeChildType::Boolean => Ok(ChildFieldType::Boolean),
            NativeChildType::Utf8 => Ok(ChildFieldType::Utf8),
            NativeChildType::Float32 => Ok(ChildFieldType::Float32),
            NativeChildType::Int32 => Ok(ChildFieldType::Int32),
            NativeChildType::Int64 => Ok(ChildFieldType::Int64),
            NativeChildType::Other(name) => Err(Error::UnsupportedType { found: name.clone() }),
        }
    }
}

impl ChildField {
    /// The native child field, with the same name, type and nullability.
    pub fn into_arrow(&self) -> (r: NativeChildField)
        ensures
            child_matches(r, *self),
    {
        NativeChildField {
            name: self.name.clone(),
            data_type: self.field_type.into_arrow(),
            nullable: self.nullable,
        }
    }

    /// The child field of a native child field of a supported type.
    pub fn try_from_arrow(n: &NativeChildField) -> (r: Result<ChildField, Error>)
        ensures
            r is Ok <==> child_supported(n.data_type),
            match r {
                Ok(c) => child_matches(*n, c),
                Err(e) => is_unsupported_error(e, child_unsupported_name(n.data_type)),
            },
    {
        let field_type = ChildFieldType::try_from_arrow(&n.data_type)?;
        Ok(ChildField { name: n.name.clone(), field_type, nullable: n.nullable })
    }
}

impl FieldType {
    /// The native type.
    pub fn into_arrow(&self) -> (r: NativeType)
        ensures
            type_matches(r, *self),
    {
        match self {
            FieldType::Boolean => NativeType::Boolean,
            FieldType::Utf8 => NativeType::Utf8,
            FieldType::Float32 => NativeType::Float32,
            FieldType::Int32 => NativeType::Int32,
            FieldType::Int64 => NativeType::Int64,
            FieldType::List(c) => NativeType::List(c.into_arrow()),
            FieldType::FixedSizeList(c, d) => NativeType::FixedSizeList(c.into_arrow(), *d),
        }
    }

    /// The field type of a native type. A type outside the supported set
    /// (a primitive other than the five, a deeper nesting, any other kind)
    /// is rejected as not supported, never replaced by a default.
    pub fn try_from_arrow(n: &NativeType) -> (r: Result<FieldType, Error>)
        ensures
            r is Ok <==> type_supported(*n),
            match r {
                Ok(ft) => type_matches(*n, ft),
                Err(e) => is_unsupported_error(e, unsupported_name(*n)),
            },
    {
        match n {
            NativeType::Boolean => Ok(FieldType::Boolean),
            NativeType::Utf8 => Ok(FieldType::Utf8),
            NativeType::Float32 => Ok(FieldType::Float32),
            NativeType::Int32 => Ok(FieldType::Int32),
            NativeType::Int64 => Ok(FieldType::Int64),
            NativeType::List(c) => {
                let child = ChildField::try_from_arrow(c)?;
                Ok(FieldType::List(child))
            },
            NativeType::FixedSizeList(c, d) => {
                let child = ChildField::try_from_arrow(c)?;
                Ok(FieldType::FixedSizeList(child, *d))
            },
            NativeType::Other(name) => Err(Error::UnsupportedType { found: name.clone() }),
        }
    }
}

impl Field {
    /// The native field, with the same name, type and nullability.
    pub fn into_arrow(&self) -> (r: NativeField)
        ensures
            field_matches(r, *self),
    {
        NativeField {
            name: self.name.clone(),
            data_type: self.field_type.into_arrow(),
            nullable: self.nullable,
        }
    }

    /// The field of a native field of a supported type.
    pub fn try_from_arrow(n: &NativeField) -> (r: Result<Field, Error>)
        ensures
            r is Ok <==> type_supported(n.data_type),
            match r {
                Ok(f) => field_matches(*n, f),
                Err(e) => is_unsupported_error(e, unsupported_name(n.data_type)),
            },
    {
        let field_type = FieldType::try_from_arrow(&n.data_type)?;
        Ok(Field { name: n.name.clone(), field_type, nullable: n.nullable })
    }
}

/// A native type that describes a field type is always supported.
pub proof fn lemma_matching_type_supported(n: NativeType, ft: FieldType)
    requires
        type_matches(n, ft),
    ensures
        type_supported(n),
{
}

/// The native schema derived from a schema converts back: its types are all
/// supported, and the schema it gives back has the same fields, in the same
/// order, as the one it came from.
pub proof fn lemma_native_round_trip(s: Schema, n: NativeSchema, back: Schema)
    requires
        schema_matches(n, s),
        schema_matches(n, back),
    ensures
        all_supported(n),
        back.fields@.len() == s.fields@.len(),
        forall|j: int|
            0 <= j < s.fields@.len() ==> {
                &&& (#[trigger] back.fields@[j]).name@ == s.fields@[j].name@
                &&& back.fields@[j].nullable == s.fields@[j].nullable
                &&& kind_of(back.fields@[j].field_type) == kind_of(s.fields@[j].field_type)
                &&& element_type(back.fields@[j].field_type) == element_type(s.fields@[j].field_type)
            },
        back.metadata@ == s.metadata@,
{
    assert forall|j: int| 0 <= j < n.fields@.len() implies type_supported(#[trigger] n.fields@[j].data_type) by {
        lemma_matching_type_supported(n.fields@[j].data_type, s.fields@[j].field_type);
    }
    assert forall|j: int| 0 <= j < s.fields@.len() implies {
        &&& (#[trigger] back.fields@[j]).name@ == s.fields@[j].name@
        &&& back.fields@[j].nullable == s.fields@[j].nullable
        &&& kind_of(back.fields@[j].field_type) == kind_of(s.fields@[j].field_type)
        &&& element_type(back.fields@[j].field_type) == element_type(s.fields@[j].field_type)
    } by {
        assert(field_matches(n.fields@[j], s.fields@[j]));
        assert(field_matches(n.fields@[j], back.fields@[j]));
    }
}

impl Schema {
    /// A schema of the given fields, in order, and metadata.
    pub fn new(fields: Vec<Field>, metadata: HashMap<String, String>) -> (r: Schema)
        ensures
            r.fields@ == fields@,
            r.metadata@ == metadata@,
    {
        Schema { fields, metadata }
    }

    /// The native schema: the same fields in the same order, each with its
    /// name, type and nullability, and the same metadata.
    pub fn into_arrow(&self) -> (r: NativeSchema)
        ensures
            schema_matches(r, *self),
    {
        let mut fields: Vec<NativeField> = Vec::new();
        let m = self.fields.len();
        let mut j: usize = 0;
        while j < m
            invariant
                m == self.fields@.len(),
                j <= m,
                fields@.len() == j,
                forall|k: int| 0 <= k < j ==> field_matches(#[trigger] fields@[k], self.fields@[k]),
            decreases m - j,
        {
            fields.push(self.fields[j].into_arrow());
            j = j + 1;
        }
        NativeSchema { fields, metadata: self.metadata.clone() }
    }

    /// The schema of a native schema whose field types are all supported;
    /// otherwise the first unsupported field type is reported.
    pub fn try_from_arrow(n: &NativeSchema) -> (r: Result<Schema, Error>)
        ensures
            r is Ok <==> all_supported(*n),
            match r {
                Ok(s) => schema_matches(*n, s),
                Err(e) => first_unsupported_error(*n, e),
            },
    {
        let mut fields: Vec<Field> = Vec::new();
        let m = n.fields.len();
        let mut j: usize = 0;
        while j < m
            invariant
                m == n.fields@.len(),
                j <= m,
                fields@.len() == j,
                forall|k: int| 0 <= k < j ==> type_supported(#[trigger] n.fields@[k].data_type),
                forall|k: int| 0 <= k < j ==> field_matches(n.fields@[k], #[trigger] fields@[k]),
            decreases m - j,
        {
            match Field::try_from_arrow(&n.fields[j]) {
                Ok(f) => fields.push(f),
                Err(e) => return Err(e),
            }
            j = j + 1;
        }
        Ok(Schema { fields, metadata: n.metadata.clone() })
    }
}

} // verus!
