use crate::error::Error;
use crate::schema::{FieldType, Schema};
use vstd::prelude::*;
use vstd::string::StringExecFns;

verus! {

/// The distance measure of a vector index.
#[derive(Clone, Copy, Debug, PartialEq, Eq, Structural)]
pub enum DistanceType {
    L2,
    Cosine,
    Dot,
    Hamming,
}

/// The distance type a host name stands for.
pub open spec fn distance_named(name: Seq<char>) -> Option<DistanceType> {
    if name == "l2"@ {
        Some(DistanceType::L2)
    } else if name == "cosine"@ {
        Some(DistanceType::Cosine)
    } else if name == "dot"@ {
        Some(DistanceType::Dot)
    } else if name == "hamming"@ {
        Some(DistanceType::Hamming)
    } else {
        None
    }
}

impl DistanceType {
    /// Reads a distance type from its host name; any other name is a bad argument.
    pub fn from_name(name: &String) -> (r: Result<DistanceType, Error>)
        ensures
            match r {
                Ok(d) => distance_named(name@) == Some(d),
                Err(e) => distance_named(name@) is None && e is RustlerBadArg,
            },
    {
        if *name == String::from_str("l2") {
            Ok(DistanceType::L2)
        } else if *name == String::from_str("cosine") {
            Ok(DistanceType::Cosine)
        } else if *name == String::from_str("dot") {
            Ok(DistanceType::Dot)
        } else if *name == String::from_str("hamming") {
            Ok(DistanceType::Hamming)
        } else {
            Err(Error::RustlerBadArg)
        }
    }
}

/// Settings of an IVF-PQ vector index.
#[derive(Clone, Debug)]
pub struct IvfPqIndexBuilderConfig {
    pub distance_type: DistanceType,
    pub num_partitions: Option<u32>,
    pub sample_rate: u32,
    pub max_iterations: u32,
    pub num_sub_vectors: Option<u32>,
    pub num_bits: Option<u32>,
}

/// Settings of the tokenizer of a full-text index.
#[derive(Clone, Debug)]
pub struct TokenizerConfig {
    pub base_tokenizer: String,
    pub language: String,
    pub max_token_length: Option<usize>,
    pub lower_case: bool,
    pub stem: bool,
    pub remove_stop_words: bool,
    pub ascii_folding: bool,
}

/// Settings of a full-text index.
#[derive(Clone, Debug)]
pub struct FtsIndexBuilderConfig {
    pub with_position: bool,
    pub tokenizer_configs: TokenizerConfig,
}

/// The index to build on a set of columns.
#[derive(Clone, Debug)]
pub enum IndexConfig {
    Auto,
    BTree,
    Bitmap,
    LabelList,
    FullTextSearch(FtsIndexBuilderConfig),
    IvfPq(IvfPqIndexBuilderConfig),
}

/// The index kinds that need no settings of their own.
pub open spec fn plain_index_named(name: Seq<char>) -> Option<IndexConfig> {
    if name == "auto"@ {
        Some(IndexConfig::Auto)
    } else if name == "btree"@ {
        Some(IndexConfig::BTree)
    } else if name == "bitmap"@ {
        Some(IndexConfig::Bitmap)
    } else if name == "label_list"@ {
        Some(IndexConfig::LabelList)
    } else {
        None
    }
}

impl IndexConfig {
    /// Reads an index kind that takes no settings from its host name.
    /// `None` for any other name, such as those of the vector and
    /// full-text indexes, whose settings come with them.
    pub fn plain_from_name(name: &String) -> (r: Option<IndexConfig>)
        ensures
            r == plain_index_named(name@),
    {
        if *name == String::from_str("auto") {
            Some(IndexConfig::Auto)
        } else if *name == String::from_str("btree") {
            Some(IndexConfig::BTree)
        } else if *name == String::from_str("bitmap") {
            Some(IndexConfig::Bitmap)
        } else if *name == String::from_str("label_list") {
            Some(IndexConfig::LabelList)
        } else {
            None
        }
    }
}

/// How to compact and prune a table.
#[derive(Clone, Copy, Debug, PartialEq, Eq, Structural)]
pub enum OptimizeAction {
    All,
}

impl OptimizeAction {
    /// Reads an optimize action from its host name; only `all` exists.
    pub fn from_name(name: &String) -> (r: Result<OptimizeAction, Error>)
        ensures
            r is Ok <==> name@ == "all"@,
            match r {
                Ok(a) => a == OptimizeAction::All,
                Err(e) => e is InvalidInput,
            },
    {
        if *name == String::from_str("all") {
            Ok(OptimizeAction::All)
        } else {
            let mut message = String::from_str("optimize action not supported: ");
            message.append(name.as_str());
            Err(Error::InvalidInput { message })
        }
    }
}

/// What a compaction did.
#[derive(Clone, Copy, Debug, PartialEq, Eq, Structural)]
pub struct CompactionMetrics {
    pub fragments_removed: usize,
    pub fragments_added: usize,
    pub files_removed: usize,
    pub files_added: usize,
}

/// What pruning old versions removed.
#[derive(Clone, Copy, Debug, PartialEq, Eq, Structural)]
pub struct RemovalStats {
    pub bytes_removed: u64,
    pub old_versions: u64,
}

/// What an optimize run did, per phase that ran.
#[derive(Clone, Copy, Debug, PartialEq, Eq, Structural)]
pub struct OptimizeStats {
    pub compaction: Option<CompactionMetrics>,
    pub prune: Option<RemovalStats>,
}

/// How rows of new data are merged into a table, matched on the `on` columns.
#[derive(Clone, Debug)]
pub struct MergeInsertConfig {
    pub on: Vec<String>,
    pub when_matched_update_all: bool,
    pub when_matched_update_all_filt: Option<String>,
    pub when_not_matched_insert_all: bool,
    pub when_not_matched_by_source_delete: bool,
    pub when_not_matched_by_source_delete_filt: Option<String>,
}

/// One column assignment of an update: `column = operation` (an SQL expression).
#[derive(Clone, Debug)]
pub struct ColumnOperation {
    pub column: String,
    pub operation: String,
}

/// An update of the rows that the filter selects (all rows without one).
#[derive(Clone, Debug)]
pub struct UpdateConfig {
    pub filter: Option<String>,
    pub columns: Vec<ColumnOperation>,
}

/// An SQL filter of a query.
#[derive(Clone, Debug)]
pub struct QueryFilter {
    pub sql: Option<String>,
}

/// A plain query: an optional filter and an optional row limit.
#[derive(Clone, Debug)]
pub struct QueryRequest {
    pub filter: Option<QueryFilter>,
    pub limit: Option<usize>,
}

/// A change to one existing column.
#[derive(Clone, Debug)]
pub struct ColumnAlteration {
    pub path: String,
    pub rename: Option<String>,
    pub nullable: Option<bool>,
    pub data_type: Option<FieldType>,
}

/// How new columns are filled.
#[derive(Clone, Debug)]
pub enum NewColumnTransform {
    /// Columns of the given schema, every value null.
    AllNulls(Schema),
}

/// The row filter of a count: the empty string counts every row.
pub fn row_filter(filter: String) -> (r: Option<String>)
    ensures
        filter@.len() == 0 ==> r is None,
        filter@.len() != 0 ==> r == Some(filter),
{
    if filter.as_str().is_empty() {
        None
    } else {
        Some(filter)
    }
}

} // verus!
