//! The actions that a log entry or a checkpoint row holds.

use vstd::prelude::*;

verus! {

/// How the data files of a table are encoded.
#[derive(Clone, Debug)]
pub struct Format {
    /// Name of the encoding of the data files.
    pub provider: String,
    /// Options of the encoding.
    pub options: Option<Vec<(String, String)>>,
}

/// A data file that joins the table.
#[derive(Clone, Debug)]
pub struct Add {
    /// Path of the data file, relative to the table root.
    pub path: String,
    /// Size of the file in bytes.
    pub size: i64,
    /// Partition column values of the file.
    pub partition_values: Vec<(String, String)>,
    /// Time the file was created, in milliseconds since the Unix epoch.
    pub modification_time: i64,
    /// Whether the file changes the table's data (rather than only its layout).
    pub data_change: bool,
    /// Statistics of the file, as raw JSON text.
    pub stats: Option<String>,
    /// Free-form tags of the file.
    pub tags: Option<Vec<(String, String)>>,
}

/// A data file that leaves the table; it is kept as a tombstone.
#[derive(Clone, Debug)]
pub struct Remove {
    /// Path of the data file, relative to the table root.
    pub path: String,
    /// Time the file was removed, in milliseconds since the Unix epoch.
    pub deletion_timestamp: i64,
    /// Whether the removal changes the table's data.
    pub data_change: bool,
    /// Whether the optional fields below are present.
    pub extended_file_metadata: Option<bool>,
    /// Partition column values of the file.
    pub partition_values: Option<Vec<(String, String)>>,
    /// Size of the file in bytes.
    pub size: Option<i64>,
    /// Free-form tags of the file.
    pub tags: Option<Vec<(String, String)>>,
}

/// The reader and writer versions that a client must support.
#[derive(Clone, Copy, Debug)]
pub struct Protocol {
    /// Minimum version of the protocol a reader must implement.
    pub min_reader_version: i32,
    /// Minimum version of the protocol a writer must implement.
    pub min_writer_version: i32,
}

/// Table metadata as it stands in the log.
#[derive(Clone, Debug)]
pub struct MetaData {
    /// Unique identifier of the table.
    pub id: String,
    /// User-provided name of the table.
    pub name: Option<String>,
    /// User-provided description of the table.
    pub description: Option<String>,
    /// Encoding of the data files.
    pub format: Format,
    /// Schema of the table, serialized as JSON.
    pub schema_string: String,
    /// Columns by which the data files are partitioned, in path order.
    pub partition_columns: Vec<String>,
    /// Time the metadata was created, in milliseconds since the Unix epoch.
    pub created_time: i64,
    /// Table properties.
    pub configuration: Vec<(String, String)>,
}

/// The last version an application committed, for idempotent writes.
#[derive(Clone, Debug)]
pub struct Txn {
    /// Identifier of the application.
    pub app_id: String,
    /// Application-specific version.
    pub version: i64,
    /// Time of the commit, in milliseconds since the Unix epoch.
    pub last_updated: i64,
}

/// One action of a log entry.
#[derive(Clone, Debug)]
pub enum Action {
    /// A data file joins the table.
    Add(Add),
    /// A data file leaves the table.
    Remove(Remove),
    /// New protocol versions.
    Protocol(Protocol),
    /// New table metadata.
    MetaData(MetaData),
    /// An application's transaction watermark.
    Txn(Txn),
    /// Information about the commit, as raw JSON text.
    CommitInfo(String),
}

} // verus!
