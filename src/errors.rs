//! Errors of storage, log replay, checkpoint loading and commits.

use vstd::prelude::*;

pub use crate::storage::StorageError;

verus! {

/// An error while applying a log entry.
#[derive(Debug)]
pub enum ApplyLogError {
    /// The log entry does not exist: the end of the log is reached.
    EndOfLog,
    /// A line of the log entry is not a valid action.
    InvalidJson {
        /// What the decoder reported.
        message: String,
    },
    /// The storage failed to read the log entry.
    Storage {
        /// The storage error.
        source: StorageError,
    },
    /// A line of the log entry could not be read.
    Io {
        /// What the reader reported.
        message: String,
    },
}

/// The log error that a storage error stands for: a missing object is the
/// end of the log.
pub open spec fn apply_log_error_of(e: StorageError) -> ApplyLogError {
    match e {
        StorageError::NotFound => ApplyLogError::EndOfLog,
        _ => ApplyLogError::Storage { source: e },
    }
}

impl vstd::std_specs::convert::FromSpecImpl<StorageError> for ApplyLogError {
    open spec fn obeys_from_spec() -> bool {
        true
    }

    open spec fn from_spec(v: StorageError) -> ApplyLogError {
        apply_log_error_of(v)
    }
}

impl From<StorageError> for ApplyLogError {
    fn from(error: StorageError) -> (r: ApplyLogError) {
        match error {
            StorageError::NotFound => ApplyLogError::EndOfLog,
            _ => ApplyLogError::Storage { source: error },
        }
    }
}

/// An error while loading a checkpoint.
#[derive(Debug)]
pub enum LoadCheckpointError {
    /// There is no checkpoint.
    NotFound,
    /// The checkpoint descriptor is not valid JSON.
    InvalidJson {
        /// What the decoder reported.
        message: String,
    },
    /// The storage failed to read the checkpoint.
    Storage {
        /// The storage error.
        source: StorageError,
    },
}

/// The checkpoint error that a storage error stands for.
pub open spec fn load_checkpoint_error_of(e: StorageError) -> LoadCheckpointError {
    match e {
        StorageError::NotFound => LoadCheckpointError::NotFound,
        _ => LoadCheckpointError::Storage { source: e },
    }
}

impl vstd::std_specs::convert::FromSpecImpl<StorageError> for LoadCheckpointError {
    open spec fn obeys_from_spec() -> bool {
        true
    }

    open spec fn from_spec(v: StorageError) -> LoadCheckpointError {
        load_checkpoint_error_of(v)
    }
}

impl From<StorageError> for LoadCheckpointError {
    fn from(error: StorageError) -> (r: LoadCheckpointError) {
        match error {
            StorageError::NotFound => LoadCheckpointError::NotFound,
            _ => LoadCheckpointError::Storage { source: error },
        }
    }
}

/// An error of a table operation.
#[derive(Debug)]
pub enum DeltaTableError {
    /// Applying the transaction log failed.
    ApplyLog {
        /// The log error.
        source: ApplyLogError,
    },
    /// Loading the checkpoint failed.
    LoadCheckpoint {
        /// The checkpoint error.
        source: LoadCheckpointError,
    },
    /// Reading or writing an object failed.
    StorageError {
        /// The storage error.
        source: StorageError,
    },
    /// A checkpoint file could not be decoded.
    ParquetError {
        /// What the decoder reported.
        message: String,
    },
    /// The schema could not be converted to a columnar schema.
    ArrowError {
        /// What the converter reported.
        message: String,
    },
    /// No storage backend fits the table path.
    UriError {
        /// Why the path was refused.
        message: String,
    },
    /// A log record is not valid JSON.
    InvalidJson {
        /// What the decoder reported.
        message: String,
    },
    /// The requested version has no log entry.
    InvalidVersion(i64),
    /// A data file of the table cannot be read.
    MissingDataFile {
        /// What the reader reported.
        message: String,
        /// Path of the data file.
        path: String,
    },
    /// A datetime string could not be parsed.
    InvalidDateTimeString {
        /// What the parser reported.
        source: chrono::ParseError,
    },
    /// A checkpoint row or action is malformed.
    InvalidAction {
        /// What is wrong with it.
        message: String,
    },
    /// Neither a checkpoint nor the first log entry exists.
    NotATable,
    /// The table has no metadata: it is not loaded, or its log holds none.
    NoMetadata,
    /// The table has no schema: it is not loaded, or its log holds none.
    NoSchema,
    /// The table has no partition columns.
    LoadPartitions,
    /// A partition segment is not of the form `key=value`.
    PartitionError {
        /// The malformed segment.
        partition: String,
    },
    /// A partition filter could not be built.
    InvalidPartitionFilter {
        /// The malformed filter.
        partition_filter: String,
    },
    /// The vacuum retention period is under a week, or the clock is wrong.
    InvalidVacuumRetentionPeriod,
}

/// An error of one commit attempt.
#[derive(Debug)]
pub enum TransactionCommitAttemptError {
    /// The version was already committed by another writer.
    VersionExists {
        /// The storage error of the refused rename.
        source: StorageError,
    },
    /// A table operation failed during the attempt.
    DeltaTable {
        /// The table error.
        source: DeltaTableError,
    },
    /// The storage failed during the attempt.
    Storage {
        /// The storage error.
        source: StorageError,
    },
}

/// The attempt error that a storage error stands for: a destination that
/// already exists is a version conflict.
pub open spec fn attempt_error_of(e: StorageError) -> TransactionCommitAttemptError {
    match e {
        StorageError::AlreadyExists(_) => TransactionCommitAttemptError::VersionExists { source: e },
        _ => TransactionCommitAttemptError::Storage { source: e },
    }
}

impl vstd::std_specs::convert::FromSpecImpl<StorageError> for TransactionCommitAttemptError {
    open spec fn obeys_from_spec() -> bool {
        true
    }

    open spec fn from_spec(v: StorageError) -> TransactionCommitAttemptError {
        attempt_error_of(v)
    }
}

impl From<StorageError> for TransactionCommitAttemptError {
    fn from(error: StorageError) -> (r: TransactionCommitAttemptError) {
        match error {
            StorageError::AlreadyExists(_) => TransactionCommitAttemptError::VersionExists {
                source: error,
            },
            _ => TransactionCommitAttemptError::Storage { source: error },
        }
    }
}

/// An error of a transaction.
#[derive(Debug)]
pub enum DeltaTransactionError {
    /// A commit attempt failed; the inner error says why.
    TransactionCommitAttempt {
        /// The attempt error.
        inner: TransactionCommitAttemptError,
    },
    /// The version to commit already exists.
    VersionAlreadyExists {
        /// The attempt error.
        inner: TransactionCommitAttemptError,
    },
    /// A record batch lacks a partition column of the schema.
    MissingPartitionColumn,
    /// The storage failed.
    Storage {
        /// The storage error.
        source: StorageError,
    },
    /// A table operation failed.
    DeltaTable {
        /// The table error.
        source: DeltaTableError,
    },
    /// An action could not be serialized.
    ActionSerializationFailed {
        /// What the encoder reported.
        message: String,
    },
}

/// The transaction error that an attempt error stands for: a version
/// conflict stays distinguishable.
pub open spec fn transaction_error_of(e: TransactionCommitAttemptError) -> DeltaTransactionError {
    match e {
        TransactionCommitAttemptError::VersionExists { .. } => DeltaTransactionError::VersionAlreadyExists { inner: e },
        _ => DeltaTransactionError::TransactionCommitAttempt { inner: e },
    }
}

impl vstd::std_specs::convert::FromSpecImpl<TransactionCommitAttemptError> for DeltaTransactionError {
    open spec fn obeys_from_spec() -> bool {
        true
    }

    open spec fn from_spec(v: TransactionCommitAttemptError) -> DeltaTransactionError {
        transaction_error_of(v)
    }
}

impl From<TransactionCommitAttemptError> for DeltaTransactionError {
    fn from(error: TransactionCommitAttemptError) -> (r: DeltaTransactionError) {
        match error {
            TransactionCommitAttemptError::VersionExists { .. } => {
                DeltaTransactionError::VersionAlreadyExists { inner: error }
            },
            _ => DeltaTransactionError::TransactionCommitAttempt { inner: error },
        }
    }
}

} // verus!
