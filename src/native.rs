//! The storage engine's schema as plain values: what the codec reads of an
//! arrow schema, with every type outside the supported set kept by name.
use std::collections::HashMap;
use vstd::prelude::*;

verus! {

/// The storage engine's element type of a nested field. Any type the codec
/// does not support is carried by its name.
#[derive(Clone, Debug)]
pub enum NativeChildType {
    Boolean,
    Utf8,
    Float32,
    Int32,
    Int64,
    Other(String),
}

/// The storage engine's child field of a nested type.
#[derive(Clone, Debug)]
pub struct NativeChildField {
    pub name: String,
    pub data_type: NativeChildType,
    pub nullable: bool,
}

/// The storage engine's type of a top-level field.
#[derive(Clone, Debug)]
pub enum NativeType {
    Boolean,
    Utf8,
    Float32,
    Int32,
    Int64,
    List(NativeChildField),
    FixedSizeList(NativeChildField, i32),
    Other(String),
}

/// The storage engine's field.
#[derive(Clone, Debug)]
pub struct NativeField {
    pub name: String,
    pub data_type: NativeType,
    pub nullable: bool,
}

/// The storage engine's schema: ordered fields and key/value metadata.
#[derive(Clone, Debug)]
pub struct NativeSchema {
    pub fields: Vec<NativeField>,
    pub metadata: HashMap<String, String>,
}

} // verus!
