//! Commits: staging a log entry under a temporary name and renaming it to
//! the next version's path, retrying when another writer got there first.
//!
//! The rename that refuses an existing destination is the point at which a
//! commit takes effect. The caller performs the storage operations and
//! hands their outcomes to the steps below.

use vstd::prelude::*;

use crate::errors::{
    attempt_error_of, transaction_error_of, DeltaTransactionError, TransactionCommitAttemptError,
};
use crate::log::{joined, tmp_commit_file_name};
use crate::storage::StorageError;
use crate::table::DeltaTable;

verus! {

/// Number of retries a commit makes by default: in practice unbounded.
pub const DEFAULT_DELTA_MAX_RETRY_COMMIT_ATTEMPTS: u32 = 10_000_000;

/// Options of a transaction.
#[derive(Clone, Copy, Debug)]
pub struct DeltaTransactionOptions {
    /// How many version conflicts a commit retries before it gives up.
    pub max_retry_commit_attempts: u32,
}

impl DeltaTransactionOptions {
    /// Options with the given retry bound.
    pub fn new(max_retry_commit_attempts: u32) -> (r: DeltaTransactionOptions)
        ensures
            r.max_retry_commit_attempts == max_retry_commit_attempts,
    {
        DeltaTransactionOptions { max_retry_commit_attempts }
    }
}

impl Default for DeltaTransactionOptions {
    fn default() -> (r: DeltaTransactionOptions)
        ensures
            r.max_retry_commit_attempts == DEFAULT_DELTA_MAX_RETRY_COMMIT_ATTEMPTS,
    {
        DeltaTransactionOptions { max_retry_commit_attempts: DEFAULT_DELTA_MAX_RETRY_COMMIT_ATTEMPTS }
    }
}

/// Whether `c` is a lower-case hexadecimal digit.
pub open spec fn is_lower_hex(c: char) -> bool {
    ('0' <= c && c <= '9') || ('a' <= c && c <= 'f')
}

/// Whether `s` is a UUID in hyphenated lower-case form: 36 characters,
/// hyphens at positions 8, 13, 18 and 23, hexadecimal digits elsewhere.
pub open spec fn is_hyphenated_uuid(s: Seq<char>) -> bool {
    &&& s.len() == 36
    &&& forall|i: int| 0 <= i < 36 ==> if i == 8 || i == 13 || i == 18 || i == 23 {
        s[i] == '-'
    } else {
        is_lower_hex(#[trigger] s[i])
    }
}

/// Relies on `uuid::Uuid::new_v4` for a random identifier, and on its
/// `Display`, which writes the hyphenated lower-case form.
#[verifier::external_body]
fn new_commit_token() -> (r: String)
    ensures
        is_hyphenated_uuid(r@),
{
    uuid::Uuid::new_v4().to_string()
}

/// The outcome of a commit at a chosen version, from the outcome of the
/// rename to that version's path.
pub open spec fn commit_outcome(version: i64, renamed: Result<(), StorageError>) -> Result<i64, DeltaTransactionError> {
    match renamed {
        Ok(_) => Ok(version),
        Err(e) => Err(transaction_error_of(attempt_error_of(e))),
    }
}

/// A transaction on a table. Its commits retry version conflicts up to the
/// bound of its options.
#[derive(Debug)]
pub struct DeltaTransaction {
    /// The options of the transaction.
    pub options: DeltaTransactionOptions,
    /// Version conflicts met so far by the current commit.
    pub attempt_number: u64,
}

impl DeltaTransaction {
    /// A transaction with the given options, or the default ones.
    pub fn new(options: Option<DeltaTransactionOptions>) -> (r: DeltaTransaction)
        ensures
            r.attempt_number == 0,
            r.options.max_retry_commit_attempts == match options {
                Some(o) => o.max_retry_commit_attempts,
                None => DEFAULT_DELTA_MAX_RETRY_COMMIT_ATTEMPTS,
            },
    {
        let options = match options {
            Some(o) => o,
            None => DeltaTransactionOptions::default(),
        };
        DeltaTransaction { options, attempt_number: 0 }
    }

    /// Starts a commit: the path under which the caller stages the log
    /// entry, unique to this commit.
    pub fn prepare_commit(&mut self, table: &DeltaTable) -> (r: String)
        ensures
            final(self).options == old(self).options,
            final(self).attempt_number == 0,
            exists|token: Seq<char>| is_hyphenated_uuid(token)
                && r@ == joined(table.log_dir(), table.sep(), tmp_commit_file_name(token)),
    {
        self.attempt_number = 0;
        let token = new_commit_token();
        table.tmp_commit_log_path(token.as_str())
    }

    /// The outcome of staging the log entry.
    pub fn on_staged(staged: Result<(), StorageError>) -> (r: Result<(), DeltaTransactionError>)
        ensures
            match staged {
                Ok(_) => r is Ok,
                Err(e) => r == Err::<(), DeltaTransactionError>(transaction_error_of(attempt_error_of(e))),
            },
    {
        match staged {
            Ok(_) => Ok(()),
            Err(e) => Err(DeltaTransactionError::from(TransactionCommitAttemptError::from(e))),
        }
    }

    /// The version an optimistic commit tries next, once the caller has
    /// refreshed the table: the one after its current version.
    pub fn next_attempt_version(&self, table: &DeltaTable) -> (r: i64)
        requires
            table.version < i64::MAX,
        ensures
            r == table.version + 1,
    {
        table.version + 1
    }

    /// The outcome of renaming the staged entry to the path of `version`
    /// during an optimistic commit. Success commits that version
    /// (`Ok(Some(version))`). A conflict counts one more attempt and asks
    /// for a retry (`Ok(None)`) while the count stays within one more than
    /// the retry bound; past it the commit fails with the conflict. Other
    /// storage errors fail the commit.
    pub fn on_commit_attempt(&mut self, version: i64, renamed: Result<(), StorageError>) -> (r: Result<Option<i64>, DeltaTransactionError>)
        requires
            old(self).attempt_number <= old(self).options.max_retry_commit_attempts as u64 + 1,
        ensures
            final(self).options == old(self).options,
            final(self).attempt_number <= final(self).options.max_retry_commit_attempts as u64 + 1,
            match renamed {
                Ok(_) => r == Ok::<Option<i64>, DeltaTransactionError>(Some(version))
                    && final(self).attempt_number == old(self).attempt_number,
                Err(StorageError::AlreadyExists(p)) => if old(self).attempt_number + 1 > old(self).options.max_retry_commit_attempts + 1 {
                    r == Err::<Option<i64>, DeltaTransactionError>(DeltaTransactionError::VersionAlreadyExists {
                        inner: TransactionCommitAttemptError::VersionExists { source: StorageError::AlreadyExists(p) },
                    }) && final(self).attempt_number == old(self).attempt_number
                } else {
                    r == Ok::<Option<i64>, DeltaTransactionError>(None)
                        && final(self).attempt_number == old(self).attempt_number + 1
                },
                Err(e) => r == Err::<Option<i64>, DeltaTransactionError>(DeltaTransactionError::TransactionCommitAttempt {
                    inner: TransactionCommitAttemptError::Storage { source: e },
                }) && final(self).attempt_number == old(self).attempt_number,
            },
    {
        match renamed {
            Ok(_) => Ok(Some(version)),
            Err(StorageError::AlreadyExists(p)) => {
                if self.attempt_number + 1 > self.options.max_retry_commit_attempts as u64 + 1 {
                    Err(DeltaTransactionError::VersionAlreadyExists {
                        inner: TransactionCommitAttemptError::VersionExists { source: StorageError::AlreadyExists(p) },
                    })
                } else {
                    self.attempt_number = self.attempt_number + 1;
                    Ok(None)
                }
            },
            Err(e) => Err(DeltaTransactionError::TransactionCommitAttempt {
                inner: TransactionCommitAttemptError::Storage { source: e },
            }),
        }
    }

    /// The outcome of a commit at the chosen `version`, from the outcome of
    /// the single rename to its path: a conflict is reported to the caller,
    /// not retried.
    pub fn commit_version_outcome(version: i64, renamed: Result<(), StorageError>) -> (r: Result<i64, DeltaTransactionError>)
        ensures
            r == commit_outcome(version, renamed),
    {
        match renamed {
            Ok(_) => Ok(version),
            Err(e) => Err(DeltaTransactionError::from(TransactionCommitAttemptError::from(e))),
        }
    }
}

impl DeltaTable {
    /// A transaction on this table, with the given options or the default
    /// ones.
    pub fn create_transaction(&mut self, options: Option<DeltaTransactionOptions>) -> (r: DeltaTransaction)
        ensures
            *final(self) == *old(self),
            r.attempt_number == 0,
            r.options.max_retry_commit_attempts == match options {
                Some(o) => o.max_retry_commit_attempts,
                None => DEFAULT_DELTA_MAX_RETRY_COMMIT_ATTEMPTS,
            },
    {
        DeltaTransaction::new(options)
    }
}

/// The lines of a log entry joined with newlines, without a trailing one.
pub open spec fn joined_lines(lines: Seq<Seq<char>>) -> Seq<char>
    decreases lines.len(),
{
    if lines.len() == 0 {
        Seq::empty()
    } else if lines.len() == 1 {
        lines[0]
    } else {
        joined_lines(lines.drop_last()) + "\n"@ + lines.last()
    }
}

/// A log entry from its actions' JSON texts, one per line.
pub fn log_entry_from_json_lines(lines: &Vec<String>) -> (r: String)
    ensures
        r@ == joined_lines(Seq::new(lines@.len(), |i: int| lines@[i]@)),
{
    let ghost v = Seq::new(lines@.len(), |i: int| lines@[i]@);
    let mut out = String::new();
    let mut i: usize = 0;
    while i < lines.len()
        invariant
            i <= lines@.len(),
            v == Seq::new(lines@.len(), |i: int| lines@[i]@),
            out@ == joined_lines(v.subrange(0, i as int)),
        decreases lines@.len() - i,
    {
        assert(v.subrange(0, i + 1).drop_last() =~= v.subrange(0, i as int));
        assert(v.subrange(0, i + 1).last() == lines@[i as int]@);
        if i > 0 {
            out.append("\n");
        } else {
            assert(v.subrange(0, 1)[0] == lines@[0]@);
        }
        out.append(lines[i].as_str());
        proof {
            if i == 0 {
                assert(out@ =~= joined_lines(v.subrange(0, 1)));
            }
        }
        i += 1;
    }
    assert(v.subrange(0, v.len() as int) =~= v);
    out
}

/// Two writers race for the same version: when the storage lets exactly
/// one rename to its path succeed and refuses the other as existing, exactly
/// one commit takes the version and the other reports the conflict.
pub proof fn commit_linearization(version: i64, first: Result<(), StorageError>, second: Result<(), StorageError>)
    requires
        (first is Ok && second is Err && second->Err_0 is AlreadyExists)
            || (second is Ok && first is Err && first->Err_0 is AlreadyExists),
    ensures
        commit_outcome(version, first) is Ok != commit_outcome(version, second) is Ok,
        commit_outcome(version, first) matches Ok(v) ==> v == version
            && commit_outcome(version, second) matches Err(DeltaTransactionError::VersionAlreadyExists { .. }),
        commit_outcome(version, second) matches Ok(v) ==> v == version
            && commit_outcome(version, first) matches Err(DeltaTransactionError::VersionAlreadyExists { .. }),
{
}

} // verus!
