use crate::schema::FieldKind;
use vstd::prelude::*;
use vstd::string::StringExecFns;

verus! {

/// The closed classification of failures reported to the host.
#[derive(Clone, Copy, Debug, PartialEq, Eq, Structural)]
pub enum ErrorKind {
    /// A host value was not list- or mapping-shaped where required.
    InputShape,
    FieldMissing,
    TypeMismatch,
    /// A type outside the supported set: a defect, not a retryable condition.
    UnsupportedType,
    /// A failure of the storage engine, passed through.
    StorageEngine,
}

/// Every failure that the library reports, codec failures and the storage
/// engine's own categories alike.
#[derive(Clone, Debug)]
pub enum Error {
    /// A host value was not shaped as required (a list of rows, a mapping).
    InvalidInput { message: String },
    /// A row holds no value under a field's name.
    FieldMissing { field: String },
    /// A row's value does not fit the field's declared type.
    TypeMismatch { field: String, expected: FieldKind },
    /// A type outside the closed set of supported types, by its name.
    UnsupportedType { found: String },
    Other { message: String },
    /// The host runtime rejected an argument.
    RustlerBadArg,
    RustlerAtom { message: String },
    RustlerRaiseAtom { message: String },
    RustlerRaiseTerm { message: String },
    RustlerTerm { message: String },
    /// The storage engine's own failures.
    LanceInvalidTableName { name: String, reason: String },
    LanceInvalidInput { message: String },
    LanceTableNotFound { name: String },
    LanceDatabaseNotFound { name: String },
    LanceDatabaseAlreadyExists { name: String },
    LanceIndexNotFound { name: String },
    LanceEmbeddingFunctionNotFound { name: String, reason: String },
    LanceTableAlreadyExists { name: String },
    LanceCreateDir { path: String, message: String },
    LanceSchema { message: String },
    LanceRuntime { message: String },
    LanceObjectStore { message: String },
    Lance { message: String },
    LanceArrow { message: String },
    LanceNotSupported { message: String },
    LanceOther { message: String },
    /// Failures of the columnar layer.
    ArrowNotYetImplemented { message: String },
    ArrowExternalError { message: String },
    ArrowCastError { message: String },
    ArrowMemoryError { message: String },
    ArrowParseError { message: String },
    ArrowSchemaError { message: String },
    ArrowComputeError { message: String },
    ArrowDivideByZero,
    ArrowArithmeticOverflow { message: String },
    ArrowCsvError { message: String },
    ArrowJsonError { message: String },
    ArrowIoError { message: String, error: String },
    ArrowIpcError { message: String },
    ArrowInvalidArgumentError { message: String },
    ArrowParquetError { message: String },
    ArrowCDataInterface { message: String },
    ArrowDictionaryKeyOverflowError,
    ArrowRunEndIndexOverflowError,
    /// The handle to a connection or a table is closed or unusable.
    DbConnectionClosed { message: String },
    DbMutexLockPoisoned { message: String },
    TableConnectionClosed { message: String },
    TableMutexLockPoisoned { message: String },
}

/// The name of a field type's variant, as reported in messages.
pub open spec fn kind_name(k: FieldKind) -> Seq<char> {
    match k {
        FieldKind::Boolean => "Boolean"@,
        FieldKind::Utf8 => "Utf8"@,
        FieldKind::Float32 => "Float32"@,
        FieldKind::Int32 => "Int32"@,
        FieldKind::Int64 => "Int64"@,
        FieldKind::List => "List"@,
        FieldKind::FixedSizeList => "FixedSizeList"@,
    }
}

/// The tag under which the host receives an error.
pub open spec fn error_tag(e: Error) -> Seq<char> {
    match e {
        Error::InvalidInput { message: _ } => "invalid_input"@,
        Error::FieldMissing { field: _ } => "field_missing"@,
        Error::TypeMismatch { field: _, expected: _ } => "type_mismatch"@,
        Error::UnsupportedType { found: _ } => "unsupported_type"@,
        Error::Other { message: _ } => "lance_other"@,
        Error::RustlerBadArg => "rustler_bad_arg"@,
        Error::RustlerAtom { message: _ } => "rustler_atom"@,
        Error::RustlerRaiseAtom { message: _ } => "rustler_raise_atom"@,
        Error::RustlerRaiseTerm { message: _ } => "rustler_raise_term"@,
        Error::RustlerTerm { message: _ } => "rustler_term"@,
        Error::LanceInvalidTableName { name: _, reason: _ } => "lance_invalid_table_name"@,
        Error::LanceInvalidInput { message: _ } => "lance_invalid_input"@,
        Error::LanceTableNotFound { name: _ } => "lance_table_not_found"@,
        Error::LanceDatabaseNotFound { name: _ } => "lance_database_not_found"@,
        Error::LanceDatabaseAlreadyExists { name: _ } => "lance_database_already_exists"@,
        Error::LanceIndexNotFound { name: _ } => "lance_index_not_found"@,
        Error::LanceEmbeddingFunctionNotFound { name: _, reason: _ } => "lance_embedding_function_not_found"@,
        Error::LanceTableAlreadyExists { name: _ } => "lance_table_already_exists"@,
        Error::LanceCreateDir { path: _, message: _ } => "lance_create_dir"@,
        Error::LanceSchema { message: _ } => "lance_schema"@,
        Error::LanceRuntime { message: _ } => "lance_runtime"@,
        Error::LanceObjectStore { message: _ } => "lance_object_store"@,
        Error::Lance { message: _ } => "lance"@,
        Error::LanceArrow { message: _ } => "lance_arrow"@,
        Error::LanceNotSupported { message: _ } => "lance_not_supported"@,
        Error::LanceOther { message: _ } => "lance_other"@,
        Error::ArrowNotYetImplemented { message: _ } => "arrow_not_yet_implemented"@,
        Error::ArrowExternalError { message: _ } => "arrow_external_error"@,
        Error::ArrowCastError { message: _ } => "arrow_cast_error"@,
        Error::ArrowMemoryError { message: _ } => "arrow_memory_error"@,
        Error::ArrowParseError { message: _ } => "arrow_parse_error"@,
        Error::ArrowSchemaError { message: _ } => "arrow_schema_error"@,
        Error::ArrowComputeError { message: _ } => "arrow_compute_error"@,
        Error::ArrowDivideByZero => "arrow_divide_by_zero"@,
        Error::ArrowArithmeticOverflow { message: _ } => "arrow_arithmetic_overflow"@,
        Error::ArrowCsvError { message: _ } => "arrow_csv_error"@,
        Error::ArrowJsonError { message: _ } => "arrow_json_error"@,
        Error::ArrowIoError { message: _, error: _ } => "arrow_io_error"@,
        Error::ArrowIpcError { message: _ } => "arrow_ipc_error"@,
        Error::ArrowInvalidArgumentError { message: _ } => "arrow_invalid_argument_error"@,
        Error::ArrowParquetError { message: _ } => "arrow_parquet_error"@,
        Error::ArrowCDataInterface { message: _ } => "arrow_cdata_interface"@,
        Error::ArrowDictionaryKeyOverflowError => "arrow_dictionary_key_overflow_error"@,
        Error::ArrowRunEndIndexOverflowError => "arrow_run_end_index_overflow_error"@,
        Error::DbConnectionClosed { message: _ } => "db_connection_closed"@,
        Error::DbMutexLockPoisoned { message: _ } => "db_mutex_lock_poisoned"@,
        Error::TableConnectionClosed { message: _ } => "table_connection_closed"@,
        Error::TableMutexLockPoisoned { message: _ } => "table_mutex_lock_poisoned"@,
    }
}

/// The classification of an error.
pub open spec fn error_kind(e: Error) -> ErrorKind {
    match e {
        Error::InvalidInput { message: _ } => ErrorKind::InputShape,
        Error::FieldMissing { field: _ } => ErrorKind::FieldMissing,
        Error::TypeMismatch { field: _, expected: _ } => ErrorKind::TypeMismatch,
        Error::UnsupportedType { found: _ } => ErrorKind::UnsupportedType,
        Error::Other { message: _ } => ErrorKind::StorageEngine,
        Error::RustlerBadArg => ErrorKind::InputShape,
        Error::RustlerAtom { message: _ } => ErrorKind::InputShape,
        Error::RustlerRaiseAtom { message: _ } => ErrorKind::InputShape,
        Error::RustlerRaiseTerm { message: _ } => ErrorKind::InputShape,
        Error::RustlerTerm { message: _ } => ErrorKind::InputShape,
        Error::LanceInvalidTableName { name: _, reason: _ } => ErrorKind::StorageEngine,
        Error::LanceInvalidInput { message: _ } => ErrorKind::StorageEngine,
        Error::LanceTableNotFound { name: _ } => ErrorKind::StorageEngine,
        Error::LanceDatabaseNotFound { name: _ } => ErrorKind::StorageEngine,
        Error::LanceDatabaseAlreadyExists { name: _ } => ErrorKind::StorageEngine,
        Error::LanceIndexNotFound { name: _ } => ErrorKind::StorageEngine,
        Error::LanceEmbeddingFunctionNotFound { name: _, reason: _ } => ErrorKind::StorageEngine,
        Error::LanceTableAlreadyExists { name: _ } => ErrorKind::StorageEngine,
        Error::LanceCreateDir { path: _, message: _ } => ErrorKind::StorageEngine,
        Error::LanceSchema { message: _ } => ErrorKind::StorageEngine,
        Error::LanceRuntime { message: _ } => ErrorKind::StorageEngine,
        Error::LanceObjectStore { message: _ } => ErrorKind::StorageEngine,
        Error::Lance { message: _ } => ErrorKind::StorageEngine,
        Error::LanceArrow { message: _ } => ErrorKind::StorageEngine,
        Error::LanceNotSupported { message: _ } => ErrorKind::StorageEngine,
        Error::LanceOther { message: _ } => ErrorKind::StorageEngine,
        Error::ArrowNotYetImplemented { message: _ } => ErrorKind::StorageEngine,
        Error::ArrowExternalError { message: _ } => ErrorKind::StorageEngine,
        Error::ArrowCastError { message: _ } => ErrorKind::StorageEngine,
        Error::ArrowMemoryError { message: _ } => ErrorKind::StorageEngine,
        Error::ArrowParseError { message: _ } => ErrorKind::StorageEngine,
        Error::ArrowSchemaError { message: _ } => ErrorKind::StorageEngine,
        Error::ArrowComputeError { message: _ } => ErrorKind::StorageEngine,
        Error::ArrowDivideByZero => ErrorKind::StorageEngine,
        Error::ArrowArithmeticOverflow { message: _ } => ErrorKind::StorageEngine,
        Error::ArrowCsvError { message: _ } => ErrorKind::StorageEngine,
        Error::ArrowJsonError { message: _ } => ErrorKind::StorageEngine,
        Error::ArrowIoError { message: _, error: _ } => ErrorKind::StorageEngine,
        Error::ArrowIpcError { message: _ } => ErrorKind::StorageEngine,
        Error::ArrowInvalidArgumentError { message: _ } => ErrorKind::StorageEngine,
        Error::ArrowParquetError { message: _ } => ErrorKind::StorageEngine,
        Error::ArrowCDataInterface { message: _ } => ErrorKind::StorageEngine,
        Error::ArrowDictionaryKeyOverflowError => ErrorKind::StorageEngine,
        Error::ArrowRunEndIndexOverflowError => ErrorKind::StorageEngine,
        Error::DbConnectionClosed { message: _ } => ErrorKind::StorageEngine,
        Error::DbMutexLockPoisoned { message: _ } => ErrorKind::StorageEngine,
        Error::TableConnectionClosed { message: _ } => ErrorKind::StorageEngine,
        Error::TableMutexLockPoisoned { message: _ } => ErrorKind::StorageEngine,
    }
}

/// The human-readable message of an error.
pub open spec fn error_message(e: Error) -> Seq<char> {
    match e {
        Error::InvalidInput { message } => message@,
        Error::FieldMissing { field } => "missing field: "@ + field@,
        Error::TypeMismatch { field, expected } => "field "@ + field@ + " expects a value of type "@ + kind_name(expected),
        Error::UnsupportedType { found } => "data type not supported: "@ + found@,
        Error::Other { message } => message@,
        Error::RustlerBadArg => "bad argument"@,
        Error::RustlerAtom { message } => message@,
        Error::RustlerRaiseAtom { message } => message@,
        Error::RustlerRaiseTerm { message } => message@,
        Error::RustlerTerm { message } => message@,
        Error::LanceInvalidTableName { name, reason } => name@ + " is not a valid database name: "@ + reason@,
        Error::LanceInvalidInput { message } => message@,
        Error::LanceTableNotFound { name } => name@,
        Error::LanceDatabaseNotFound { name } => name@,
        Error::LanceDatabaseAlreadyExists { name } => name@,
        Error::LanceIndexNotFound { name } => name@,
        Error::LanceEmbeddingFunctionNotFound { name, reason } => "Embedding function "@ + name@ + " not found: "@ + reason@,
        Error::LanceTableAlreadyExists { name } => name@,
        Error::LanceCreateDir { path, message } => "Could not create dir at path "@ + path@ + ", reason: "@ + message@,
        Error::LanceSchema { message } => message@,
        Error::LanceRuntime { message } => message@,
        Error::LanceObjectStore { message } => message@,
        Error::Lance { message } => message@,
        Error::LanceArrow { message } => message@,
        Error::LanceNotSupported { message } => message@,
        Error::LanceOther { message } => message@,
        Error::ArrowNotYetImplemented { message } => message@,
        Error::ArrowExternalError { message } => message@,
        Error::ArrowCastError { message } => message@,
        Error::ArrowMemoryError { message } => message@,
        Error::ArrowParseError { message } => message@,
        Error::ArrowSchemaError { message } => message@,
        Error::ArrowComputeError { message } => message@,
        Error::ArrowDivideByZero => "no further information provided"@,
        Error::ArrowArithmeticOverflow { message } => message@,
        Error::ArrowCsvError { message } => message@,
        Error::ArrowJsonError { message } => message@,
        Error::ArrowIoError { message, error } => message@ + ". "@ + error@ + "."@,
        Error::ArrowIpcError { message } => message@,
        Error::ArrowInvalidArgumentError { message } => message@,
        Error::ArrowParquetError { message } => message@,
        Error::ArrowCDataInterface { message } => message@,
        Error::ArrowDictionaryKeyOverflowError => "no further information provided"@,
        Error::ArrowRunEndIndexOverflowError => "no further information provided"@,
        Error::DbConnectionClosed { message } => message@,
        Error::DbMutexLockPoisoned { message } => message@,
        Error::TableConnectionClosed { message } => message@,
        Error::TableMutexLockPoisoned { message } => message@,
    }
}

/// The name of a field type's variant.
pub fn kind_label(k: FieldKind) -> (r: &'static str)
    ensures
        r@ == kind_name(k),
{
    match k {
        FieldKind::Boolean => "Boolean",
        FieldKind::Utf8 => "Utf8",
        FieldKind::Float32 => "Float32",
        FieldKind::Int32 => "Int32",
        FieldKind::Int64 => "Int64",
        FieldKind::List => "List",
        FieldKind::FixedSizeList => "FixedSizeList",
    }
}

impl Error {
    /// The classification of this error.
    pub fn kind(&self) -> (r: ErrorKind)
        ensures
            r == error_kind(*self),
    {
        match self {
            Error::InvalidInput { message: _ } => ErrorKind::InputShape,
            Error::FieldMissing { field: _ } => ErrorKind::FieldMissing,
            Error::TypeMismatch { field: _, expected: _ } => ErrorKind::TypeMismatch,
            Error::UnsupportedType { found: _ } => ErrorKind::UnsupportedType,
            Error::Other { message: _ } => ErrorKind::StorageEngine,
            Error::RustlerBadArg => ErrorKind::InputShape,
            Error::RustlerAtom { message: _ } => ErrorKind::InputShape,
            Error::RustlerRaiseAtom { message: _ } => ErrorKind::InputShape,
            Error::RustlerRaiseTerm { message: _ } => ErrorKind::InputShape,
            Error::RustlerTerm { message: _ } => ErrorKind::InputShape,
            Error::LanceInvalidTableName { name: _, reason: _ } => ErrorKind::StorageEngine,
            Error::LanceInvalidInput { message: _ } => ErrorKind::StorageEngine,
            Error::LanceTableNotFound { name: _ } => ErrorKind::StorageEngine,
            Error::LanceDatabaseNotFound { name: _ } => ErrorKind::StorageEngine,
            Error::LanceDatabaseAlreadyExists { name: _ } => ErrorKind::StorageEngine,
            Error::LanceIndexNotFound { name: _ } => ErrorKind::StorageEngine,
            Error::LanceEmbeddingFunctionNotFound { name: _, reason: _ } => ErrorKind::StorageEngine,
            Error::LanceTableAlreadyExists { name: _ } => ErrorKind::StorageEngine,
            Error::LanceCreateDir { path: _, message: _ } => ErrorKind::StorageEngine,
            Error::LanceSchema { message: _ } => ErrorKind::StorageEngine,
            Error::LanceRuntime { message: _ } => ErrorKind::StorageEngine,
            Error::LanceObjectStore { message: _ } => ErrorKind::StorageEngine,
            Error::Lance { message: _ } => ErrorKind::StorageEngine,
            Error::LanceArrow { message: _ } => ErrorKind::StorageEngine,
            Error::LanceNotSupported { message: _ } => ErrorKind::StorageEngine,
            Error::LanceOther { message: _ } => ErrorKind::StorageEngine,
            Error::ArrowNotYetImplemented { message: _ } => ErrorKind::StorageEngine,
            Error::ArrowExternalError { message: _ } => ErrorKind::StorageEngine,
            Error::ArrowCastError { message: _ } => ErrorKind::StorageEngine,
            Error::ArrowMemoryError { message: _ } => ErrorKind::StorageEngine,
            Error::ArrowParseError { message: _ } => ErrorKind::StorageEngine,
            Error::ArrowSchemaError { message: _ } => ErrorKind::StorageEngine,
            Error::ArrowComputeError { message: _ } => ErrorKind::StorageEngine,
            Error::ArrowDivideByZero => ErrorKind::StorageEngine,
            Error::ArrowArithmeticOverflow { message: _ } => ErrorKind::StorageEngine,
            Error::ArrowCsvError { message: _ } => ErrorKind::StorageEngine,
            Error::ArrowJsonError { message: _ } => ErrorKind::StorageEngine,
            Error::ArrowIoError { message: _, error: _ } => ErrorKind::StorageEngine,
            Error::ArrowIpcError { message: _ } => ErrorKind::StorageEngine,
            Error::ArrowInvalidArgumentError { message: _ } => ErrorKind::StorageEngine,
            Error::ArrowParquetError { message: _ } => ErrorKind::StorageEngine,
            Error::ArrowCDataInterface { message: _ } => ErrorKind::StorageEngine,
            Error::ArrowDictionaryKeyOverflowError => ErrorKind::StorageEngine,
            Error::ArrowRunEndIndexOverflowError => ErrorKind::StorageEngine,
            Error::DbConnectionClosed { message: _ } => ErrorKind::StorageEngine,
            Error::DbMutexLockPoisoned { message: _ } => ErrorKind::StorageEngine,
            Error::TableConnectionClosed { message: _ } => ErrorKind::StorageEngine,
            Error::TableMutexLockPoisoned { message: _ } => ErrorKind::StorageEngine,
        }
    }

    /// The tag under which the host receives this error.
    pub fn tag(&self) -> (r: &'static str)
        ensures
            r@ == error_tag(*self),
    {
        match self {
            Error::InvalidInput { message: _ } => "invalid_input",
            Error::FieldMissing { field: _ } => "field_missing",
            Error::TypeMismatch { field: _, expected: _ } => "type_mismatch",
            Error::UnsupportedType { found: _ } => "unsupported_type",
            Error::Other { message: _ } => "lance_other",
            Error::RustlerBadArg => "rustler_bad_arg",
            Error::RustlerAtom { message: _ } => "rustler_atom",
            Error::RustlerRaiseAtom { message: _ } => "rustler_raise_atom",
            Error::RustlerRaiseTerm { message: _ } => "rustler_raise_term",
            Error::RustlerTerm { message: _ } => "rustler_term",
            Error::LanceInvalidTableName { name: _, reason: _ } => "lance_invalid_table_name",
            Error::LanceInvalidInput { message: _ } => "lance_invalid_input",
            Error::LanceTableNotFound { name: _ } => "lance_table_not_found",
            Error::LanceDatabaseNotFound { name: _ } => "lance_database_not_found",
            Error::LanceDatabaseAlreadyExists { name: _ } => "lance_database_already_exists",
            Error::LanceIndexNotFound { name: _ } => "lance_index_not_found",
            Error::LanceEmbeddingFunctionNotFound { name: _, reason: _ } => "lance_embedding_function_not_found",
            Error::LanceTableAlreadyExists { name: _ } => "lance_table_already_exists",
            Error::LanceCreateDir { path: _, message: _ } => "lance_create_dir",
            Error::LanceSchema { message: _ } => "lance_schema",
            Error::LanceRuntime { message: _ } => "lance_runtime",
            Error::LanceObjectStore { message: _ } => "lance_object_store",
            Error::Lance { message: _ } => "lance",
            Error::LanceArrow { message: _ } => "lance_arrow",
            Error::LanceNotSupported { message: _ } => "lance_not_supported",
            Error::LanceOther { message: _ } => "lance_other",
            Error::ArrowNotYetImplemented { message: _ } => "arrow_not_yet_implemented",
            Error::ArrowExternalError { message: _ } => "arrow_external_error",
            Error::ArrowCastError { message: _ } => "arrow_cast_error",
            Error::ArrowMemoryError { message: _ } => "arrow_memory_error",
            Error::ArrowParseError { message: _ } => "arrow_parse_error",
            Error::ArrowSchemaError { message: _ } => "arrow_schema_error",
            Error::ArrowComputeError { message: _ } => "arrow_compute_error",
            Error::ArrowDivideByZero => "arrow_divide_by_zero",
            Error::ArrowArithmeticOverflow { message: _ } => "arrow_arithmetic_overflow",
            Error::ArrowCsvError { message: _ } => "arrow_csv_error",
            Error::ArrowJsonError { message: _ } => "arrow_json_error",
            Error::ArrowIoError { message: _, error: _ } => "arrow_io_error",
            Error::ArrowIpcError { message: _ } => "arrow_ipc_error",
            Error::ArrowInvalidArgumentError { message: _ } => "arrow_invalid_argument_error",
            Error::ArrowParquetError { message: _ } => "arrow_parquet_error",
            Error::ArrowCDataInterface { message: _ } => "arrow_cdata_interface",
            Error::ArrowDictionaryKeyOverflowError => "arrow_dictionary_key_overflow_error",
            Error::ArrowRunEndIndexOverflowError => "arrow_run_end_index_overflow_error",
            Error::DbConnectionClosed { message: _ } => "db_connection_closed",
            Error::DbMutexLockPoisoned { message: _ } => "db_mutex_lock_poisoned",
            Error::TableConnectionClosed { message: _ } => "table_connection_closed",
            Error::TableMutexLockPoisoned { message: _ } => "table_mutex_lock_poisoned",
        }
    }

    /// The human-readable message of this error.
    pub fn message(&self) -> (r: String)
        ensures
            r@ == error_message(*self),
    {
        match self {
            Error::InvalidInput { message } => message.clone(),
            Error::FieldMissing { field } => {
                let mut s = String::from_str("missing field: ");
                s.append(field.as_str());
                s
            },
            Error::TypeMismatch { field, expected } => {
                let mut s = String::from_str("field ");
                s.append(field.as_str());
                s.append(" expects a value of type ");
                s.append(kind_label(*expected));
                s
            },
            Error::UnsupportedType { found } => {
                let mut s = String::from_str("data type not supported: ");
                s.append(found.as_str());
                s
            },
            Error::Other { message } => message.clone(),
            Error::RustlerBadArg => String::from_str("bad argument"),
            Error::RustlerAtom { message } => message.clone(),
            Error::RustlerRaiseAtom { message } => message.clone(),
            Error::RustlerRaiseTerm { message } => message.clone(),
            Error::RustlerTerm { message } => message.clone(),
            Error::LanceInvalidTableName { name, reason } => {
                let mut s = name.clone();
                s.append(" is not a valid database name: ");
                s.append(reason.as_str());
                s
            },
            Error::LanceInvalidInput { message } => message.clone(),
            Error::LanceTableNotFound { name } => name.clone(),
            Error::LanceDatabaseNotFound { name } => name.clone(),
            Error::LanceDatabaseAlreadyExists { name } => name.clone(),
            Error::LanceIndexNotFound { name } => name.clone(),
            Error::LanceEmbeddingFunctionNotFound { name, reason } => {
                let mut s = String::from_str("Embedding function ");
                s.append(name.as_str());
                s.append(" not found: ");
                s.append(reason.as_str());
                s
            },
            Error::LanceTableAlreadyExists { name } => name.clone(),
            Error::LanceCreateDir { path, message } => {
                let mut s = String::from_str("Could not create dir at path ");
                s.append(path.as_str());
                s.append(", reason: ");
                s.append(message.as_str());
                s
            },
            Error::LanceSchema { message } => message.clone(),
            Error::LanceRuntime { message } => message.clone(),
            Error::LanceObjectStore { message } => message.clone(),
            Error::Lance { message } => message.clone(),
            Error::LanceArrow { message } => message.clone(),
            Error::LanceNotSupported { message } => message.clone(),
            Error::LanceOther { message } => message.clone(),
            Error::ArrowNotYetImplemented { message } => message.clone(),
            Error::ArrowExternalError { message } => message.clone(),
            Error::ArrowCastError { message } => message.clone(),
            Error::ArrowMemoryError { message } => message.clone(),
            Error::ArrowParseError { message } => message.clone(),
            Error::ArrowSchemaError { message } => message.clone(),
            Error::ArrowComputeError { message } => message.clone(),
            Error::ArrowDivideByZero => String::from_str("no further information provided"),
            Error::ArrowArithmeticOverflow { message } => message.clone(),
            Error::ArrowCsvError { message } => message.clone(),
            Error::ArrowJsonError { message } => message.clone(),
            Error::ArrowIoError { message, error } => {
                let mut s = message.clone();
                s.append(". ");
                s.append(error.as_str());
                s.append(".");
                s
            },
            Error::ArrowIpcError { message } => message.clone(),
            Error::ArrowInvalidArgumentError { message } => message.clone(),
            Error::ArrowParquetError { message } => message.clone(),
            Error::ArrowCDataInterface { message } => message.clone(),
            Error::ArrowDictionaryKeyOverflowError => String::from_str("no further information provided"),
            Error::ArrowRunEndIndexOverflowError => String::from_str("no further information provided"),
            Error::DbConnectionClosed { message } => message.clone(),
            Error::DbMutexLockPoisoned { message } => message.clone(),
            Error::TableConnectionClosed { message } => message.clone(),
            Error::TableMutexLockPoisoned { message } => message.clone(),
        }
    }

    /// What the host receives: the error's tag and its message.
    pub fn encode(&self) -> (r: (&'static str, String))
        ensures
            r.0@ == error_tag(*self),
            r.1@ == error_message(*self),
    {
        (self.tag(), self.message())
    }
}

impl From<String> for Error {
    /// A bare message is reported as an uncategorised engine failure.
    fn from(message: String) -> (r: Error)
        ensures
            r == (Error::Other { message }),
    {
        Error::Other { message }
    }
}

impl vstd::std_specs::convert::FromSpecImpl<String> for Error {
    open spec fn obeys_from_spec() -> bool {
        true
    }

    open spec fn from_spec(message: String) -> Error {
        Error::Other { message }
    }
}

} // verus!
