//! A schema-directed codec between dynamically tagged host values and typed
//! columnar arrays, with the schema model and error taxonomy around it.
pub mod column;
pub mod config;
pub mod decode;
pub mod encode;
pub mod error;
pub mod laws;
pub mod native;
pub mod schema;
pub mod value;
