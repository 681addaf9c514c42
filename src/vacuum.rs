//! Planning a vacuum: which listed files are stale and may be deleted.

use vstd::prelude::*;

use crate::action::Remove;
use crate::errors::DeltaTableError;
use crate::log::{join_path, joined};
use crate::partitions::views;
use crate::state::DeltaTableMetaData;
use crate::storage::StorageError;
use crate::table::DeltaTable;
use crate::text::{is_prefix, starts_with};

verus! {

/// Hours in a week: the shortest retention period a vacuum accepts.
pub const MIN_RETENTION_HOURS: u64 = 168;

/// Milliseconds in an hour.
pub const MILLIS_PER_HOUR: i64 = 3_600_000;

/// The deletion time before which a tombstone is stale, for a run at
/// `now_ms` keeping `hours` of history.
pub open spec fn retention_cutoff(now_ms: int, hours: int) -> int {
    now_ms - hours * 3_600_000
}

/// Whether a vacuum with this retention period, run at `now_ms`, is refused:
/// under a week, or reaching back before the Unix epoch.
pub open spec fn retention_refused(hours: int, now_ms: int) -> bool {
    hours < 168 || retention_cutoff(now_ms, hours) < 0
}

/// The full paths of the tombstones deleted before `cutoff`, in order.
pub open spec fn stale_paths(tombstones: Seq<Remove>, base: Seq<char>, sep: Seq<char>, cutoff: int) -> Seq<Seq<char>>
    decreases tombstones.len(),
{
    if tombstones.len() == 0 {
        Seq::empty()
    } else if tombstones.last().deletion_timestamp < cutoff {
        stale_paths(tombstones.drop_last(), base, sep, cutoff).push(joined(base, sep, tombstones.last().path@))
    } else {
        stale_paths(tombstones.drop_last(), base, sep, cutoff)
    }
}

/// Whether `path` lies under one of the partition columns at the table
/// root.
pub open spec fn under_partition_column(path: Seq<char>, base: Seq<char>, sep: Seq<char>, columns: Seq<String>) -> bool {
    exists|i: int| 0 <= i < columns.len() && is_prefix(joined(base, sep, (#[trigger] columns[i])@), path)
}

/// Whether `path` is hidden from vacuum: under an entry of the table root
/// whose name starts with `.` or `_`, except the index and change-data
/// directories and the partition columns. `None` when that last test is
/// needed and the table has no metadata.
pub open spec fn hidden(path: Seq<char>, base: Seq<char>, sep: Seq<char>, metadata: Option<DeltaTableMetaData>) -> Option<bool> {
    if !(is_prefix(joined(base, sep, "."@), path) || is_prefix(joined(base, sep, "_"@), path)) {
        Some(false)
    } else if is_prefix(joined(base, sep, "_delta_index"@), path) {
        Some(false)
    } else if is_prefix(joined(base, sep, "_change_data"@), path) {
        Some(false)
    } else {
        match metadata {
            None => None,
            Some(m) => Some(!under_partition_column(path, base, sep, m.partition_columns@)),
        }
    }
}

/// Whether some string of `v` is `p`.
pub open spec fn listed_in(v: Seq<Seq<char>>, p: Seq<char>) -> bool {
    exists|i: int| 0 <= i < v.len() && v[i] == p
}

/// The listed paths that a vacuum deletes, in listing order: not a live
/// file, a stale tombstone, and not hidden. `None` when the hidden test
/// of some listed path fails for want of metadata.
pub open spec fn vacuum_candidates(
    listing: Seq<Seq<char>>,
    live: Seq<Seq<char>>,
    stale: Seq<Seq<char>>,
    base: Seq<char>,
    sep: Seq<char>,
    metadata: Option<DeltaTableMetaData>,
) -> Option<Seq<Seq<char>>>
    decreases listing.len(),
{
    if listing.len() == 0 {
        Some(Seq::empty())
    } else {
        match (vacuum_candidates(listing.drop_last(), live, stale, base, sep, metadata), hidden(listing.last(), base, sep, metadata)) {
            (Some(c), Some(h)) => if !listed_in(live, listing.last()) && listed_in(stale, listing.last()) && !h {
                Some(c.push(listing.last()))
            } else {
                Some(c)
            },
            _ => None,
        }
    }
}

fn contains_str(v: &Vec<String>, p: &String) -> (r: bool)
    ensures
        r == listed_in(views(v@), p@),
{
    let mut i: usize = 0;
    while i < v.len()
        invariant
            i <= v@.len(),
            forall|j: int| 0 <= j < i ==> (#[trigger] v@[j])@ != p@,
        decreases v@.len() - i,
    {
        if v[i] == *p {
            assert(views(v@)[i as int] == p@);
            return true;
        }
        i += 1;
    }
    proof {
        assert forall|j: int| 0 <= j < views(v@).len() implies views(v@)[j] != p@ by {
            assert(views(v@)[j] == v@[j]@);
        }
    }
    false
}

impl DeltaTable {
    /// The full paths of the tombstones older than the retention period,
    /// for a run at `now_ms` (milliseconds since the Unix epoch, negative
    /// before it). A period under a week, or one that reaches back before
    /// the epoch, is refused.
    pub fn get_stale_files(&self, retention_hours: u64, now_ms: i64) -> (r: Result<Vec<String>, DeltaTableError>)
        ensures
            retention_refused(retention_hours as int, now_ms as int) <==> r is Err,
            r matches Err(e) ==> e is InvalidVacuumRetentionPeriod,
            r matches Ok(v) ==> views(v@) == stale_paths(
                self.snapshot().tombstones, self.table_path@, self.sep(),
                retention_cutoff(now_ms as int, retention_hours as int),
            ),
    {
        if retention_hours < MIN_RETENTION_HOURS {
            return Err(DeltaTableError::InvalidVacuumRetentionPeriod);
        }
        if now_ms < 0 || retention_hours > (now_ms / MILLIS_PER_HOUR) as u64 {
            proof {
                if now_ms >= 0 {
                    assert(retention_hours * 3_600_000 > now_ms) by (nonlinear_arith)
                        requires retention_hours > now_ms / 3_600_000, now_ms >= 0;
                }
            }
            return Err(DeltaTableError::InvalidVacuumRetentionPeriod);
        }
        assert(retention_hours * 3_600_000 <= now_ms) by (nonlinear_arith)
            requires retention_hours <= now_ms / 3_600_000, now_ms >= 0;
        let cutoff: i64 = now_ms - retention_hours as i64 * MILLIS_PER_HOUR;
        let tombstones = &self.state.tombstones;
        let mut r: Vec<String> = Vec::new();
        let mut i: usize = 0;
        while i < tombstones.len()
            invariant
                i <= tombstones@.len(),
                cutoff == retention_cutoff(now_ms as int, retention_hours as int),
                views(r@) == stale_paths(tombstones@.subrange(0, i as int), self.table_path@, self.separator@, cutoff as int),
            decreases tombstones@.len() - i,
        {
            assert(tombstones@.subrange(0, i + 1).drop_last() =~= tombstones@.subrange(0, i as int));
            assert(tombstones@.subrange(0, i + 1).last() == tombstones@[i as int]);
            if tombstones[i].deletion_timestamp < cutoff {
                let p = join_path(self.table_path.as_str(), self.separator.as_str(), tombstones[i].path.as_str());
                let ghost before = r@;
                r.push(p);
                assert(views(r@) =~= views(before).push(p@));
            }
            i += 1;
        }
        assert(tombstones@.subrange(0, tombstones@.len() as int) =~= tombstones@);
        Ok(r)
    }

    /// Whether `path_name` is hidden from vacuum; fails with `NoMetadata`
    /// when the partition columns must be consulted and the table has no
    /// metadata.
    #[verifier::loop_isolation(false)]
    pub fn is_hidden_directory(&self, path_name: &str) -> (r: Result<bool, DeltaTableError>)
        ensures
            match hidden(path_name@, self.table_path@, self.sep(), self.snapshot().current_metadata) {
                Some(h) => r == Ok::<bool, DeltaTableError>(h),
                None => r matches Err(DeltaTableError::NoMetadata),
            },
    {
        let base = self.table_path.as_str();
        let sep = self.separator.as_str();
        let dot = join_path(base, sep, ".");
        let underscore = join_path(base, sep, "_");
        if !(starts_with(path_name, dot.as_str()) || starts_with(path_name, underscore.as_str())) {
            return Ok(false);
        }
        let index = join_path(base, sep, "_delta_index");
        if starts_with(path_name, index.as_str()) {
            return Ok(false);
        }
        let change_data = join_path(base, sep, "_change_data");
        if starts_with(path_name, change_data.as_str()) {
            return Ok(false);
        }
        let columns = match &self.state.current_metadata {
            None => return Err(DeltaTableError::NoMetadata),
            Some(m) => &m.partition_columns,
        };
        let mut i: usize = 0;
        while i < columns.len()
            invariant
                i <= columns@.len(),
                forall|j: int| 0 <= j < i ==> !is_prefix(joined(base@, sep@, (#[trigger] columns@[j])@), path_name@),
            decreases columns@.len() - i,
        {
            let prefix = join_path(base, sep, columns[i].as_str());
            if starts_with(path_name, prefix.as_str()) {
                assert(under_partition_column(path_name@, base@, sep@, columns@));
                return Ok(false);
            }
            i += 1;
        }
        assert(!under_partition_column(path_name@, base@, sep@, columns@));
        Ok(true)
    }

    /// The listed paths (`listing`, the whole table directory) that a
    /// vacuum keeping `retention_hours` of history deletes when run at
    /// `now_ms`: files that are not live, whose tombstone is stale, and
    /// that are not hidden. The caller deletes them, unless on a dry run.
    #[verifier::loop_isolation(false)]
    pub fn vacuum(&self, retention_hours: u64, now_ms: i64, listing: &Vec<String>) -> (r: Result<Vec<String>, DeltaTableError>)
        ensures
            retention_refused(retention_hours as int, now_ms as int) ==> r matches Err(DeltaTableError::InvalidVacuumRetentionPeriod),
            !retention_refused(retention_hours as int, now_ms as int) ==> match vacuum_candidates(
                views(listing@),
                Seq::new(self.snapshot().files.len(), |i: int| joined(self.table_path@, self.sep(), self.snapshot().files[i].path@)),
                stale_paths(self.snapshot().tombstones, self.table_path@, self.sep(),
                    retention_cutoff(now_ms as int, retention_hours as int)),
                self.table_path@,
                self.sep(),
                self.snapshot().current_metadata,
            ) {
                Some(c) => r matches Ok(v) && views(v@) == c,
                None => r matches Err(DeltaTableError::NoMetadata),
            },
    {
        let stale = self.get_stale_files(retention_hours, now_ms)?;
        let live = self.get_file_paths();
        let ghost live_v = Seq::new(self.snapshot().files.len(), |i: int| joined(self.table_path@, self.sep(), self.snapshot().files[i].path@));
        assert(views(live@) =~= live_v);
        let ghost lv = views(listing@);
        let mut r: Vec<String> = Vec::new();
        let mut i: usize = 0;
        while i < listing.len()
            invariant
                i <= listing@.len(),
                lv == views(listing@),
                views(live@) == live_v,
                vacuum_candidates(lv.subrange(0, i as int), live_v, views(stale@), self.table_path@, self.separator@,
                    self.state.current_metadata) == Some(views(r@)),
            decreases listing@.len() - i,
        {
            let path = &listing[i];
            let not_live = !contains_str(&live, path);
            let stale_tomb = contains_str(&stale, path);
            proof {
                assert(lv.subrange(0, i + 1).drop_last() =~= lv.subrange(0, i as int));
                assert(lv.subrange(0, i + 1).last() == path@);
            }
            let not_hidden = match self.is_hidden_directory(path.as_str()) {
                Ok(h) => !h,
                Err(e) => {
                    assert(e is NoMetadata);
                    proof { lemma_candidates_fail(lv, i as int, live_v, views(stale@), self.table_path@, self.separator@, self.state.current_metadata); }
                    return Err(e);
                },
            };
            if not_live && stale_tomb && not_hidden {
                let ghost before = r@;
                r.push(path.clone());
                assert(views(r@) =~= views(before).push(path@));
            }
            i += 1;
        }
        assert(lv.subrange(0, lv.len() as int) =~= lv);
        Ok(r)
    }
}

proof fn lemma_candidates_fail(
    listing: Seq<Seq<char>>,
    i: int,
    live: Seq<Seq<char>>,
    stale: Seq<Seq<char>>,
    base: Seq<char>,
    sep: Seq<char>,
    metadata: Option<DeltaTableMetaData>,
)
    requires
        0 <= i < listing.len(),
        hidden(listing[i], base, sep, metadata) is None,
    ensures
        vacuum_candidates(listing, live, stale, base, sep, metadata) is None,
    decreases listing.len(),
{
    if i < listing.len() - 1 {
        assert(listing.drop_last()[i] == listing[i]);
        lemma_candidates_fail(listing.drop_last(), i, live, stale, base, sep, metadata);
    }
}

/// The outcome of deleting one vacuum candidate: an object already gone
/// counts as deleted; other storage errors stop the vacuum.
pub fn on_vacuum_delete(deleted: Result<(), StorageError>) -> (r: Result<(), DeltaTableError>)
    ensures
        match deleted {
            Ok(_) => r is Ok,
            Err(StorageError::NotFound) => r is Ok,
            Err(e) => r matches Err(DeltaTableError::StorageError { source }) && source == e,
        },
{
    match deleted {
        Ok(_) => Ok(()),
        Err(StorageError::NotFound) => Ok(()),
        Err(e) => Err(DeltaTableError::StorageError { source: e }),
    }
}

} // verus!
