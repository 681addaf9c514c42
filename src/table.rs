//! The table handle and the snapshot engine's steps.
//!
//! The engine performs no I/O. A caller reads what a step names (the last
//! checkpoint descriptor, a checkpoint's files, a log entry, an object's
//! metadata) and hands the outcome to the next step, which updates the
//! handle and says what comes next.

use vstd::prelude::*;

use crate::action::{Action, Add, Remove};
use crate::errors::{ApplyLogError, DeltaTableError, LoadCheckpointError};
use crate::laws::{concat_all, lemma_replay_concat};
use crate::log::{
    checkpoint_paths, checkpoint_paths_of, join_path, joined, last_checkpoint_file_name,
    latest_checkpoint, latest_checkpoint_in, log_dir_name, log_file_name, log_file_name_of,
    tmp_commit_file_name, CheckPoint,
};
use crate::state::{apply_actions, empty_snapshot, replay, DeltaTableMetaData, DeltaTableState, TableSnapshot};
use crate::storage::{ObjectMeta, StorageError};
use crate::text::{push_signed_zero_padded, signed_zero_padded};

verus! {

/// The map that a list of (version, timestamp) entries stands for: later
/// entries override earlier ones.
pub open spec fn timestamp_map(s: Seq<(i64, i64)>) -> Map<i64, i64>
    decreases s.len(),
{
    if s.len() == 0 {
        Map::empty()
    } else {
        timestamp_map(s.drop_last()).insert(s.last().0, s.last().1)
    }
}

/// The actions of each of a list of log entries or checkpoint files.
pub open spec fn action_seqs(parts: Seq<Vec<Action>>) -> Seq<Seq<Action>> {
    Seq::new(parts.len(), |i: int| parts[i]@)
}

/// What probing the log for its latest version asks for next.
#[derive(Clone, Copy, Debug, PartialEq, Eq)]
pub enum ProbeStep {
    /// Probe the log entry of this version next.
    Next(i64),
    /// The latest version is this one.
    Latest(i64),
}

/// In-memory representation of a table: its version, its path and the state
/// projected from its log.
#[derive(Debug)]
pub struct DeltaTable {
    /// The version of the table as of the most recently applied log entry.
    pub version: i64,
    /// The path the table is loaded from.
    pub table_path: String,
    /// The state projected from the replayed log.
    pub state: DeltaTableState,
    /// The checkpoint last restored or observed.
    pub last_check_point: Option<CheckPoint>,
    /// Path of the log directory.
    pub log_path: String,
    /// The storage backend's path separator.
    pub separator: String,
    /// Modification times of log entries seen so far; a later entry for a
    /// version overrides an earlier one.
    pub version_timestamp: Vec<(i64, i64)>,
}

impl DeltaTable {
    /// The projected state of the table.
    pub open spec fn snapshot(&self) -> TableSnapshot {
        self.state@
    }

    /// The checkpoint last restored or observed.
    pub open spec fn last_checkpoint(&self) -> Option<CheckPoint> {
        self.last_check_point
    }

    /// Path of the log directory.
    pub open spec fn log_dir(&self) -> Seq<char> {
        self.log_path@
    }

    /// The path separator of the storage backend.
    pub open spec fn sep(&self) -> Seq<char> {
        self.separator@
    }

    /// Modification times of log entries seen so far, by version.
    pub open spec fn timestamps(&self) -> Map<i64, i64> {
        timestamp_map(self.version_timestamp@)
    }

    /// Path of the log entry of version `v`.
    pub open spec fn log_entry_path(&self, v: int) -> Seq<char> {
        joined(self.log_dir(), self.sep(), log_file_name(v))
    }

    /// Creates a table handle for `table_path` without reading anything:
    /// version 0, empty state. `separator` is the storage backend's path
    /// separator.
    pub fn new(table_path: &str, separator: &str) -> (r: Result<DeltaTable, DeltaTableError>)
        ensures
            r matches Ok(t) && t.version == 0 && t.table_path@ == table_path@
                && t.snapshot() == empty_snapshot() && t.last_checkpoint() is None
                && t.sep() == separator@
                && t.log_dir() == joined(table_path@, separator@, log_dir_name())
                && t.timestamps() == Map::<i64, i64>::empty(),
    {
        let log_path = join_path(table_path, separator, "_delta_log");
        Ok(DeltaTable {
            version: 0,
            table_path: String::from_str(table_path),
            state: DeltaTableState::new(),
            last_check_point: None,
            log_path,
            separator: String::from_str(separator),
            version_timestamp: Vec::new(),
        })
    }

    /// Path of the log entry of version `version`.
    pub fn version_to_log_path(&self, version: i64) -> (r: String)
        ensures
            r@ == self.log_entry_path(version as int),
    {
        let name = log_file_name_of(version);
        join_path(self.log_path.as_str(), self.separator.as_str(), name.as_str())
    }

    /// Path under which a commit with token `token` is staged.
    pub fn tmp_commit_log_path(&self, token: &str) -> (r: String)
        ensures
            r@ == joined(self.log_dir(), self.sep(), tmp_commit_file_name(token@)),
    {
        let mut name = String::from_str("_commit_");
        name.append(token);
        name.append(".json");
        join_path(self.log_path.as_str(), self.separator.as_str(), name.as_str())
    }

    /// Path of the descriptor of the last checkpoint.
    pub fn last_checkpoint_path(&self) -> (r: String)
        ensures
            r@ == joined(self.log_dir(), self.sep(), last_checkpoint_file_name()),
    {
        join_path(self.log_path.as_str(), self.separator.as_str(), "_last_checkpoint")
    }

    /// Path of the log directory.
    pub fn log_path(&self) -> (r: &str)
        ensures
            r@ == self.log_dir(),
    {
        self.log_path.as_str()
    }

    /// Paths of the files of checkpoint `check_point`, in part order.
    pub fn get_checkpoint_data_paths(&self, check_point: &CheckPoint) -> (r: Vec<String>)
        ensures
            r@.len() == checkpoint_paths(
                joined(self.log_dir(), self.sep(), signed_zero_padded(check_point.version as int, 20)),
                *check_point,
            ).len(),
            forall|i: int| 0 <= i < r@.len() ==> (#[trigger] r@[i])@ == checkpoint_paths(
                joined(self.log_dir(), self.sep(), signed_zero_padded(check_point.version as int, 20)),
                *check_point,
            )[i],
    {
        let mut name = String::new();
        push_signed_zero_padded(&mut name, check_point.version, 20);
        let prefix = join_path(self.log_path.as_str(), self.separator.as_str(), name.as_str());
        checkpoint_paths_of(prefix.as_str(), check_point)
    }

    /// Resets the state to empty, then replays the files of a checkpoint in
    /// order. When reading them failed, the state stays empty and the error
    /// is returned.
    pub fn restore_checkpoint(&mut self, parts: Result<Vec<Vec<Action>>, DeltaTableError>) -> (r: Result<(), DeltaTableError>)
        ensures
            final(self).version == old(self).version,
            final(self).table_path == old(self).table_path,
            final(self).last_checkpoint() == old(self).last_checkpoint(),
            final(self).log_dir() == old(self).log_dir(),
            final(self).sep() == old(self).sep(),
            final(self).timestamps() == old(self).timestamps(),
            r is Ok <==> parts is Ok,
            final(self).snapshot() == (match parts {
                Ok(ps) => replay(empty_snapshot(), concat_all(action_seqs(ps@))),
                Err(_) => empty_snapshot(),
            }),
    {
        self.state = DeltaTableState::new();
        let parts = match parts {
            Ok(ps) => ps,
            Err(e) => return Err(e),
        };
        let ghost orig = parts@;
        let n = parts.len();
        let mut parts = parts;
        let mut rev: Vec<Vec<Action>> = Vec::new();
        while parts.len() > 0
            invariant
                parts@ == orig.subrange(0, parts@.len() as int),
                orig.len() == n,
                rev@.len() + parts@.len() == n,
                forall|j: int| 0 <= j < rev@.len() ==> #[trigger] rev@[j] == orig[n - 1 - j],
            decreases parts@.len(),
        {
            let p = parts.pop().unwrap();
            rev.push(p);
        }
        let mut i: usize = 0;
        while rev.len() > 0
            invariant
                orig.len() == n,
                i + rev@.len() == n,
                forall|j: int| 0 <= j < rev@.len() ==> #[trigger] rev@[j] == orig[n - 1 - j],
                self.state@ == replay(empty_snapshot(), concat_all(action_seqs(orig.subrange(0, i as int)))),
                self.version == old(self).version,
                self.table_path == old(self).table_path,
                self.last_check_point == old(self).last_check_point,
                self.log_path == old(self).log_path,
                self.separator == old(self).separator,
                self.version_timestamp == old(self).version_timestamp,
            decreases rev@.len(),
        {
            let p = rev.pop().unwrap();
            assert(p == orig[i as int]);
            let ghost before = self.state@;
            proof {
                let pre = action_seqs(orig.subrange(0, i as int));
                let post = action_seqs(orig.subrange(0, i + 1));
                assert(post.drop_last() =~= pre);
                assert(post.last() == p@);
                lemma_replay_concat(empty_snapshot(), concat_all(pre), p@);
            }
            apply_actions(&mut self.state, p);
            i += 1;
        }
        assert(orig.subrange(0, n as int) =~= orig);
        Ok(())
    }

    /// First step of a full load: the outcome of reading the last
    /// checkpoint's descriptor. A checkpoint is recorded and returned for the
    /// caller to restore with [`Self::load_checkpoint`]; without one the
    /// replay starts at version 0.
    pub fn on_load_checkpoint(&mut self, last: Result<CheckPoint, LoadCheckpointError>) -> (r: Result<Option<CheckPoint>, DeltaTableError>)
        ensures
            final(self).table_path == old(self).table_path,
            final(self).snapshot() == old(self).snapshot(),
            final(self).log_dir() == old(self).log_dir(),
            final(self).sep() == old(self).sep(),
            final(self).timestamps() == old(self).timestamps(),
            match last {
                Ok(cp) => r == Ok::<Option<CheckPoint>, DeltaTableError>(Some(cp))
                    && final(self).last_checkpoint() == Some(cp)
                    && final(self).version == old(self).version,
                Err(LoadCheckpointError::NotFound) => r == Ok::<Option<CheckPoint>, DeltaTableError>(None)
                    && final(self).version == 0
                    && final(self).last_checkpoint() == old(self).last_checkpoint(),
                Err(e) => r matches Err(DeltaTableError::LoadCheckpoint { source }) && source == e
                    && final(self).version == old(self).version
                    && final(self).last_checkpoint() == old(self).last_checkpoint(),
            },
    {
        match last {
            Ok(cp) => {
                self.last_check_point = Some(cp);
                Ok(Some(cp))
            },
            Err(LoadCheckpointError::NotFound) => {
                self.version = 0;
                Ok(None)
            },
            Err(e) => Err(DeltaTableError::LoadCheckpoint { source: e }),
        }
    }

    /// Restores checkpoint `check_point` from its files and moves to the
    /// version after it, the first log entry to replay.
    pub fn load_checkpoint(&mut self, check_point: CheckPoint, parts: Result<Vec<Vec<Action>>, DeltaTableError>) -> (r: Result<(), DeltaTableError>)
        requires
            check_point.version < i64::MAX,
        ensures
            final(self).table_path == old(self).table_path,
            final(self).last_checkpoint() == old(self).last_checkpoint(),
            final(self).log_dir() == old(self).log_dir(),
            final(self).sep() == old(self).sep(),
            final(self).timestamps() == old(self).timestamps(),
            r is Ok <==> parts is Ok,
            final(self).version == (if parts is Ok { check_point.version + 1 } else { old(self).version as int }),
            final(self).snapshot() == (match parts {
                Ok(ps) => replay(empty_snapshot(), concat_all(action_seqs(ps@))),
                Err(_) => empty_snapshot(),
            }),
    {
        self.restore_checkpoint(parts)?;
        self.version = check_point.version + 1;
        Ok(())
    }

    /// First step of a refresh: the outcome of reading the last checkpoint's
    /// descriptor. A checkpoint other than the one last seen (compared by
    /// version) is recorded and returned for the caller to restore with
    /// [`Self::load_checkpoint`]; otherwise the version moves one up, to
    /// probe the next log entry.
    pub fn on_update_checkpoint(&mut self, last: Result<CheckPoint, LoadCheckpointError>) -> (r: Result<Option<CheckPoint>, DeltaTableError>)
        requires
            old(self).version < i64::MAX,
        ensures
            final(self).table_path == old(self).table_path,
            final(self).snapshot() == old(self).snapshot(),
            final(self).log_dir() == old(self).log_dir(),
            final(self).sep() == old(self).sep(),
            final(self).timestamps() == old(self).timestamps(),
            match last {
                Ok(cp) => if old(self).last_checkpoint() is Some && old(self).last_checkpoint()->0.version == cp.version {
                    r == Ok::<Option<CheckPoint>, DeltaTableError>(None)
                        && final(self).version == old(self).version + 1
                        && final(self).last_checkpoint() == old(self).last_checkpoint()
                } else {
                    r == Ok::<Option<CheckPoint>, DeltaTableError>(Some(cp))
                        && final(self).last_checkpoint() == Some(cp)
                        && final(self).version == old(self).version
                },
                Err(LoadCheckpointError::NotFound) => r == Ok::<Option<CheckPoint>, DeltaTableError>(None)
                    && final(self).version == old(self).version + 1
                    && final(self).last_checkpoint() == old(self).last_checkpoint(),
                Err(e) => r matches Err(DeltaTableError::LoadCheckpoint { source }) && source == e
                    && final(self).version == old(self).version
                    && final(self).last_checkpoint() == old(self).last_checkpoint(),
            },
    {
        match last {
            Ok(cp) => {
                if self.last_check_point != Some(cp) {
                    self.last_check_point = Some(cp);
                    Ok(Some(cp))
                } else {
                    self.version = self.version + 1;
                    Ok(None)
                }
            },
            Err(LoadCheckpointError::NotFound) => {
                self.version = self.version + 1;
                Ok(None)
            },
            Err(e) => Err(DeltaTableError::LoadCheckpoint { source: e }),
        }
    }

    /// Path of the next log entry to replay forward: the one of the current
    /// version.
    pub fn next_log_path(&self) -> (r: String)
        ensures
            r@ == self.log_entry_path(self.version as int),
    {
        self.version_to_log_path(self.version)
    }

    /// One step of replaying forward: the outcome of reading the log entry
    /// of the current version. Its actions are applied and the version moves
    /// up (`Ok(true)`: read the next one). At the end of the log the version
    /// moves back to the last entry applied (`Ok(false)`: done), which fails
    /// with `NotATable` when there is none. Other errors stop the replay.
    pub fn on_log_entry(&mut self, entry: Result<Vec<Action>, ApplyLogError>) -> (r: Result<bool, DeltaTableError>)
        requires
            i64::MIN < old(self).version < i64::MAX,
        ensures
            final(self).table_path == old(self).table_path,
            final(self).last_checkpoint() == old(self).last_checkpoint(),
            final(self).log_dir() == old(self).log_dir(),
            final(self).sep() == old(self).sep(),
            final(self).timestamps() == old(self).timestamps(),
            match entry {
                Ok(acts) => r == Ok::<bool, DeltaTableError>(true)
                    && final(self).version == old(self).version + 1
                    && final(self).snapshot() == replay(old(self).snapshot(), acts@),
                Err(ApplyLogError::EndOfLog) => final(self).version == old(self).version - 1
                    && final(self).snapshot() == old(self).snapshot()
                    && (if old(self).version == 0 {
                        r matches Err(DeltaTableError::NotATable)
                    } else {
                        r == Ok::<bool, DeltaTableError>(false)
                    }),
                Err(e) => r matches Err(DeltaTableError::ApplyLog { source }) && source == e
                    && final(self).version == old(self).version
                    && final(self).snapshot() == old(self).snapshot(),
            },
    {
        match entry {
            Ok(acts) => {
                apply_actions(&mut self.state, acts);
                self.version = self.version + 1;
                Ok(true)
            },
            Err(ApplyLogError::EndOfLog) => {
                self.version = self.version - 1;
                if self.version == -1 {
                    Err(DeltaTableError::NotATable)
                } else {
                    Ok(false)
                }
            },
            Err(e) => Err(DeltaTableError::ApplyLog { source: e }),
        }
    }

    /// Applies a log entry that must exist, as when loading a chosen
    /// version; a missing entry is reported as the end of the log. The
    /// version does not change.
    pub fn apply_log(&mut self, entry: Result<Vec<Action>, ApplyLogError>) -> (r: Result<(), DeltaTableError>)
        ensures
            final(self).version == old(self).version,
            final(self).table_path == old(self).table_path,
            final(self).last_checkpoint() == old(self).last_checkpoint(),
            final(self).log_dir() == old(self).log_dir(),
            final(self).sep() == old(self).sep(),
            final(self).timestamps() == old(self).timestamps(),
            match entry {
                Ok(acts) => r is Ok && final(self).snapshot() == replay(old(self).snapshot(), acts@),
                Err(e) => r matches Err(DeltaTableError::ApplyLog { source }) && source == e
                    && final(self).snapshot() == old(self).snapshot(),
            },
    {
        match entry {
            Ok(acts) => {
                apply_actions(&mut self.state, acts);
                Ok(())
            },
            Err(e) => Err(DeltaTableError::ApplyLog { source: e }),
        }
    }

    /// First step of loading version `version`: the outcome of probing its
    /// log entry. When it exists the table moves to that version; when it
    /// does not, the version is invalid.
    pub fn on_version_head(&mut self, version: i64, head: Result<ObjectMeta, StorageError>) -> (r: Result<(), DeltaTableError>)
        ensures
            final(self).table_path == old(self).table_path,
            final(self).snapshot() == old(self).snapshot(),
            final(self).last_checkpoint() == old(self).last_checkpoint(),
            final(self).log_dir() == old(self).log_dir(),
            final(self).sep() == old(self).sep(),
            final(self).timestamps() == old(self).timestamps(),
            match head {
                Ok(_) => r is Ok && final(self).version == version,
                Err(StorageError::NotFound) => r matches Err(DeltaTableError::InvalidVersion(v)) && v == version
                    && final(self).version == old(self).version,
                Err(e) => r matches Err(DeltaTableError::StorageError { source }) && source == e
                    && final(self).version == old(self).version,
            },
    {
        match head {
            Ok(_) => {
                self.version = version;
                Ok(())
            },
            Err(StorageError::NotFound) => Err(DeltaTableError::InvalidVersion(version)),
            Err(e) => Err(DeltaTableError::StorageError { source: e }),
        }
    }

    /// The checkpoint with the greatest version not above `version` among
    /// the listed paths of the log directory.
    pub fn find_latest_check_point_for_version(&self, listing: &Vec<String>, version: i64) -> (r: Option<CheckPoint>)
        ensures
            r == latest_checkpoint(Seq::new(listing@.len(), |i: int| listing@[i]@), version as int),
    {
        latest_checkpoint_in(listing, version)
    }

    /// Second step of loading a chosen version: restores the checkpoint
    /// found for it from its files, or resets the state when there is none.
    /// Returns the first log version to apply; the caller then applies every
    /// entry from it up to the table's version with [`Self::apply_log`].
    pub fn restore_for_version(&mut self, found: Option<(CheckPoint, Result<Vec<Vec<Action>>, DeltaTableError>)>) -> (r: Result<i64, DeltaTableError>)
        requires
            found matches Some((cp, _)) ==> cp.version < i64::MAX,
        ensures
            final(self).version == old(self).version,
            final(self).table_path == old(self).table_path,
            final(self).last_checkpoint() == old(self).last_checkpoint(),
            final(self).log_dir() == old(self).log_dir(),
            final(self).sep() == old(self).sep(),
            final(self).timestamps() == old(self).timestamps(),
            match found {
                None => r == Ok::<i64, DeltaTableError>(0) && final(self).snapshot() == empty_snapshot(),
                Some((cp, Ok(ps))) => r == Ok::<i64, DeltaTableError>((cp.version + 1) as i64)
                    && final(self).snapshot() == replay(empty_snapshot(), concat_all(action_seqs(ps@))),
                Some((cp, Err(_))) => r is Err && final(self).snapshot() == empty_snapshot(),
            },
    {
        match found {
            None => {
                self.state = DeltaTableState::new();
                Ok(0)
            },
            Some((cp, parts)) => {
                self.restore_checkpoint(parts)?;
                Ok(cp.version + 1)
            },
        }
    }

    /// First step of finding the latest version: the outcome of reading the
    /// last checkpoint's descriptor gives the version to probe first.
    pub fn latest_version_start(&self, last: Result<CheckPoint, LoadCheckpointError>) -> (r: Result<i64, DeltaTableError>)
        ensures
            match last {
                Ok(cp) => r == Ok::<i64, DeltaTableError>(cp.version),
                Err(LoadCheckpointError::NotFound) => r == Ok::<i64, DeltaTableError>(0),
                Err(e) => r matches Err(DeltaTableError::LoadCheckpoint { source }) && source == e,
            },
    {
        match last {
            Ok(cp) => Ok(cp.version),
            Err(LoadCheckpointError::NotFound) => Ok(0),
            Err(e) => Err(DeltaTableError::LoadCheckpoint { source: e }),
        }
    }

    /// One step of finding the latest version: the outcome of probing the
    /// log entry of version `probe`. An entry that exists has its
    /// modification time remembered and the next version is probed; a
    /// missing one ends the search at the version before it.
    pub fn on_latest_version_probe(&mut self, probe: i64, head: Result<ObjectMeta, StorageError>) -> (r: Result<ProbeStep, DeltaTableError>)
        requires
            i64::MIN < probe < i64::MAX,
        ensures
            final(self).version == old(self).version,
            final(self).table_path == old(self).table_path,
            final(self).snapshot() == old(self).snapshot(),
            final(self).last_checkpoint() == old(self).last_checkpoint(),
            final(self).log_dir() == old(self).log_dir(),
            final(self).sep() == old(self).sep(),
            match head {
                Ok(meta) => r == Ok::<ProbeStep, DeltaTableError>(ProbeStep::Next((probe + 1) as i64))
                    && final(self).timestamps() == old(self).timestamps().insert(probe, meta.modified),
                Err(StorageError::NotFound) => r == Ok::<ProbeStep, DeltaTableError>(ProbeStep::Latest((probe - 1) as i64))
                    && final(self).timestamps() == old(self).timestamps(),
                Err(e) => r matches Err(DeltaTableError::StorageError { source }) && source == e
                    && final(self).timestamps() == old(self).timestamps(),
            },
    {
        match head {
            Ok(meta) => {
                let ghost before = self.version_timestamp@;
                self.version_timestamp.push((probe, meta.modified));
                assert(self.version_timestamp@.drop_last() =~= before);
                Ok(ProbeStep::Next(probe + 1))
            },
            Err(StorageError::NotFound) => Ok(ProbeStep::Latest(probe - 1)),
            Err(e) => Err(DeltaTableError::StorageError { source: e }),
        }
    }

    /// The remembered modification time of the log entry of `version`, if
    /// it was seen.
    pub fn cached_version_timestamp(&self, version: i64) -> (r: Option<i64>)
        ensures
            r == (if self.timestamps().contains_key(version) {
                Some(self.timestamps()[version])
            } else {
                None
            }),
    {
        let mut i: usize = self.version_timestamp.len();
        while i > 0
            invariant
                i <= self.version_timestamp@.len(),
                forall|k: int| i <= k < self.version_timestamp@.len()
                    ==> (#[trigger] self.version_timestamp@[k]).0 != version,
            decreases i,
        {
            let e = self.version_timestamp[i - 1];
            if e.0 == version {
                proof { lemma_timestamp_map_last(self.version_timestamp@, i - 1); }
                return Some(e.1);
            }
            i -= 1;
        }
        proof { lemma_timestamp_map_absent(self.version_timestamp@, version); }
        None
    }

    /// The outcome of probing the log entry of `version` for its
    /// modification time, which is remembered and returned.
    pub fn on_version_timestamp(&mut self, version: i64, head: Result<ObjectMeta, StorageError>) -> (r: Result<i64, DeltaTableError>)
        ensures
            final(self).version == old(self).version,
            final(self).table_path == old(self).table_path,
            final(self).snapshot() == old(self).snapshot(),
            final(self).last_checkpoint() == old(self).last_checkpoint(),
            final(self).log_dir() == old(self).log_dir(),
            final(self).sep() == old(self).sep(),
            match head {
                Ok(meta) => r == Ok::<i64, DeltaTableError>(meta.modified)
                    && final(self).timestamps() == old(self).timestamps().insert(version, meta.modified),
                Err(e) => r matches Err(DeltaTableError::StorageError { source }) && source == e
                    && final(self).timestamps() == old(self).timestamps(),
            },
    {
        match head {
            Ok(meta) => {
                let ghost before = self.version_timestamp@;
                self.version_timestamp.push((version, meta.modified));
                assert(self.version_timestamp@.drop_last() =~= before);
                Ok(meta.modified)
            },
            Err(e) => Err(DeltaTableError::StorageError { source: e }),
        }
    }

    /// The `add` actions of the loaded state, in replay order.
    pub fn get_actions(&self) -> (r: &Vec<Add>)
        ensures
            r@ == self.snapshot().files,
    {
        &self.state.files
    }

    /// The paths of the live data files, relative to the table root.
    pub fn get_files(&self) -> (r: Vec<String>)
        ensures
            r@.len() == self.snapshot().files.len(),
            forall|i: int| 0 <= i < r@.len() ==> (#[trigger] r@[i])@ == self.snapshot().files[i].path@,
    {
        let mut r: Vec<String> = Vec::new();
        let mut i: usize = 0;
        while i < self.state.files.len()
            invariant
                i <= self.state.files@.len(),
                r@.len() == i,
                forall|j: int| 0 <= j < i ==> (#[trigger] r@[j])@ == self.state.files@[j].path@,
            decreases self.state.files@.len() - i,
        {
            r.push(self.state.files[i].path.clone());
            i += 1;
        }
        r
    }

    /// The full paths of the live data files.
    pub fn get_file_paths(&self) -> (r: Vec<String>)
        ensures
            r@.len() == self.snapshot().files.len(),
            forall|i: int| 0 <= i < r@.len() ==> (#[trigger] r@[i])@
                == joined(self.table_path@, self.sep(), self.snapshot().files[i].path@),
    {
        let mut r: Vec<String> = Vec::new();
        let mut i: usize = 0;
        while i < self.state.files.len()
            invariant
                i <= self.state.files@.len(),
                r@.len() == i,
                forall|j: int| 0 <= j < i ==> (#[trigger] r@[j])@
                    == joined(self.table_path@, self.separator@, self.state.files@[j].path@),
            decreases self.state.files@.len() - i,
        {
            r.push(join_path(self.table_path.as_str(), self.separator.as_str(), self.state.files[i].path.as_str()));
            i += 1;
        }
        r
    }

    /// The metadata of the loaded state.
    pub fn get_metadata(&self) -> (r: Result<&DeltaTableMetaData, DeltaTableError>)
        ensures
            match self.snapshot().current_metadata {
                Some(m) => r matches Ok(x) && *x == m,
                None => r matches Err(DeltaTableError::NoMetadata),
            },
    {
        match &self.state.current_metadata {
            Some(m) => Ok(m),
            None => Err(DeltaTableError::NoMetadata),
        }
    }

    /// The tombstones: every `remove` action of the loaded state, in order.
    pub fn get_tombstones(&self) -> (r: &Vec<Remove>)
        ensures
            r@ == self.snapshot().tombstones,
    {
        &self.state.tombstones
    }

    /// The application transaction versions of the loaded state, as entries
    /// of which a later one overrides an earlier one for the same
    /// application.
    pub fn get_app_transaction_version(&self) -> (r: &Vec<(String, i64)>)
        ensures
            crate::state::txn_map(r@) == self.snapshot().app_transaction_version,
    {
        &self.state.app_transaction_version
    }

    /// The minimum reader protocol version of the loaded state.
    pub fn get_min_reader_version(&self) -> (r: i32)
        ensures
            r == self.snapshot().min_reader_version,
    {
        self.state.min_reader_version
    }

    /// The minimum writer protocol version of the loaded state.
    pub fn get_min_writer_version(&self) -> (r: i32)
        ensures
            r == self.snapshot().min_writer_version,
    {
        self.state.min_writer_version
    }

    /// The schema of the loaded state, as JSON text, if it has metadata.
    pub fn schema(&self) -> (r: Option<&String>)
        ensures
            match self.snapshot().current_metadata {
                Some(m) => r matches Some(s) && *s == m.schema,
                None => r is None,
            },
    {
        match &self.state.current_metadata {
            Some(m) => Some(&m.schema),
            None => None,
        }
    }

    /// The schema of the loaded state, as JSON text.
    pub fn get_schema(&self) -> (r: Result<&String, DeltaTableError>)
        ensures
            match self.snapshot().current_metadata {
                Some(m) => r matches Ok(s) && *s == m.schema,
                None => r matches Err(DeltaTableError::NoSchema),
            },
    {
        match self.schema() {
            Some(s) => Ok(s),
            None => Err(DeltaTableError::NoSchema),
        }
    }
}

/// The version a refresh ends at: it starts at the version after the
/// restored checkpoint `restored`, or after the loaded version `v` when no
/// new checkpoint was restored ([`DeltaTable::on_update_checkpoint`],
/// [`DeltaTable::load_checkpoint`]); each of the `applied` log entries
/// found moves it one up and the end of the log one back
/// ([`DeltaTable::on_log_entry`]).
pub open spec fn refreshed_version(v: int, restored: Option<int>, applied: nat) -> int {
    (match restored {
        Some(k) => k + 1,
        None => v + 1,
    }) + applied - 1
}

/// Refreshing a loaded table never moves its version backwards, provided a
/// newly restored checkpoint is not older than the loaded version or the
/// log entries from it up to that version are still there.
pub proof fn update_version_monotonic(v: int, restored: Option<int>, applied: nat)
    requires
        v >= 0,
        restored matches Some(k) ==> k >= v || k + applied >= v,
    ensures
        refreshed_version(v, restored, applied) >= v,
{
}

proof fn lemma_timestamp_map_last(s: Seq<(i64, i64)>, j: int)
    requires
        0 <= j < s.len(),
        forall|k: int| j < k < s.len() ==> (#[trigger] s[k]).0 != s[j].0,
    ensures
        timestamp_map(s).contains_key(s[j].0),
        timestamp_map(s)[s[j].0] == s[j].1,
    decreases s.len(),
{
    if j < s.len() - 1 {
        assert(s.drop_last()[j] == s[j]);
        lemma_timestamp_map_last(s.drop_last(), j);
    }
}

proof fn lemma_timestamp_map_absent(s: Seq<(i64, i64)>, k: i64)
    requires
        forall|i: int| 0 <= i < s.len() ==> (#[trigger] s[i]).0 != k,
    ensures
        !timestamp_map(s).contains_key(k),
    decreases s.len(),
{
    if s.len() > 0 {
        assert forall|i: int| 0 <= i < s.drop_last().len() implies (#[trigger] s.drop_last()[i]).0 != k by {
            assert(s.drop_last()[i] == s[i]);
        }
        lemma_timestamp_map_absent(s.drop_last(), k);
    }
}

} // verus!
