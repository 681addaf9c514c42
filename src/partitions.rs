//! Partition filters: selecting data files by the `key=value` segments of
//! their paths.

use vstd::prelude::*;

use crate::action::Add;
use crate::errors::DeltaTableError;
use crate::log::{join_path, joined};
use crate::table::DeltaTable;

verus! {

/// `s` split at `sep` into at most `n` pieces, as `str::splitn` splits it;
/// `s[0..i]` is known to hold no `sep`.
pub open spec fn split_from(s: Seq<char>, n: nat, sep: char, i: int) -> Seq<Seq<char>>
    decreases s.len() - i,
{
    if n <= 1 || i < 0 || i >= s.len() {
        seq![s]
    } else if s[i] == sep {
        seq![s.subrange(0, i)] + split_from(s.subrange(i + 1, s.len() as int), (n - 1) as nat, sep, 0)
    } else {
        split_from(s, n, sep, i + 1)
    }
}

/// `s` split at `sep` into at most `n >= 1` pieces: the last piece holds
/// the rest of `s`.
pub open spec fn splitn(s: Seq<char>, n: nat, sep: char) -> Seq<Seq<char>> {
    split_from(s, n, sep, 0)
}

/// The views of a list of strings.
pub open spec fn views(v: Seq<String>) -> Seq<Seq<char>> {
    Seq::new(v.len(), |i: int| v[i]@)
}

/// Splits `s` at `sep` into at most `n` pieces.
pub fn split_n(s: &str, n: usize, sep: char) -> (r: Vec<String>)
    requires
        n >= 1,
    ensures
        views(r@) == splitn(s@, n as nat, sep),
{
    let len = s.unicode_len();
    let mut pieces: Vec<String> = Vec::new();
    let mut start: usize = 0;
    let mut i: usize = 0;
    assert(s@.subrange(0, len as int) =~= s@);
    assert(views(pieces@) + splitn(s@, n as nat, sep) =~= splitn(s@, n as nat, sep));
    while i < len
        invariant
            len == s@.len(),
            start <= i <= len,
            pieces@.len() < n,
            views(pieces@) + split_from(s@.subrange(start as int, len as int), (n - pieces@.len()) as nat, sep, i - start)
                == splitn(s@, n as nat, sep),
        decreases len - i,
    {
        let ghost rest = s@.subrange(start as int, len as int);

        let c = s.get_char(i);
        if c == sep && pieces.len() + 1 < n {
            let piece = String::from_str(s.substring_char(start, i));
            proof {
                assert(rest[i - start] == c);
                assert(rest.subrange(0, i - start) =~= piece@);
                assert(rest.subrange(i - start + 1, rest.len() as int) =~= s@.subrange(i + 1, len as int));
            }
            let ghost before = pieces@;
            pieces.push(piece);
            assert(views(pieces@) =~= views(before) + seq![piece@]);
            start = i + 1;
        } else {
            proof {
                assert(rest[i - start] == c);
            }
        }
        i += 1;
    }
    let last = String::from_str(s.substring_char(start, len));
    let ghost before = pieces@;
    pieces.push(last);
    proof {
        let ghost rest = s@.subrange(start as int, len as int);
        assert(rest =~= last@);
        assert(views(pieces@) =~= views(before) + seq![last@]);
    }
    pieces
}

/// A partition of a data file: a `key=value` segment of its path.
#[derive(Clone, Debug)]
pub struct DeltaTablePartition {
    /// The partition column.
    pub key: String,
    /// The column's value for the file.
    pub value: String,
}

/// The key and value of a path segment, when it holds exactly one `=`.
pub open spec fn partition_of(segment: Seq<char>) -> Option<(Seq<char>, Seq<char>)> {
    let pieces = splitn(segment, 3, '=');
    if pieces.len() == 2 {
        Some((pieces[0], pieces[1]))
    } else {
        None
    }
}

impl DeltaTablePartition {
    /// Reads a path segment of the form `key=value`; one with no `=` or
    /// with more than one is refused.
    pub fn from_segment(segment: &str) -> (r: Result<DeltaTablePartition, DeltaTableError>)
        ensures
            match partition_of(segment@) {
                Some((k, v)) => r matches Ok(p) && p.key@ == k && p.value@ == v,
                None => r matches Err(DeltaTableError::PartitionError { partition }) && partition@ == segment@,
            },
    {
        let mut pieces = split_n(segment, 3, '=');
        if pieces.len() == 2 {
            let value = pieces.pop().unwrap();
            let key = pieces.pop().unwrap();
            Ok(DeltaTablePartition { key, value })
        } else {
            Err(DeltaTableError::PartitionError { partition: String::from_str(segment) })
        }
    }
}

/// What a filter asks of a partition column's value.
#[derive(Clone, Debug)]
pub enum PartitionValue {
    /// The value equals this one.
    Equal(String),
    /// The value differs from this one.
    NotEqual(String),
    /// The value is one of these.
    In(Vec<String>),
    /// The value is none of these.
    NotIn(Vec<String>),
}

/// A condition on one partition column.
#[derive(Clone, Debug)]
pub struct PartitionFilter {
    /// The partition column.
    pub key: String,
    /// What the column's value must satisfy.
    pub value: PartitionValue,
}

/// Whether some string of `vs` holds `v`.
pub open spec fn holds_value(vs: Seq<String>, v: Seq<char>) -> bool {
    exists|i: int| 0 <= i < vs.len() && (#[trigger] vs[i])@ == v
}

/// Whether filter `f` accepts the partition `(key, value)`.
pub open spec fn filter_accepts(f: PartitionFilter, key: Seq<char>, value: Seq<char>) -> bool {
    f.key@ == key && match f.value {
        PartitionValue::Equal(v) => v@ == value,
        PartitionValue::NotEqual(v) => v@ != value,
        PartitionValue::In(vs) => holds_value(vs@, value),
        PartitionValue::NotIn(vs) => !holds_value(vs@, value),
    }
}

/// Whether filter `f` accepts one of the partitions `parts`.
pub open spec fn filter_accepts_any(f: PartitionFilter, parts: Seq<DeltaTablePartition>) -> bool {
    exists|i: int| 0 <= i < parts.len() && filter_accepts(f, (#[trigger] parts[i]).key@, parts[i].value@)
}

fn contains_value(vs: &Vec<String>, v: &String) -> (r: bool)
    ensures
        r == holds_value(vs@, v@),
{
    let mut i: usize = 0;
    while i < vs.len()
        invariant
            i <= vs@.len(),
            forall|j: int| 0 <= j < i ==> (#[trigger] vs@[j])@ != v@,
        decreases vs@.len() - i,
    {
        if vs[i] == *v {
            return true;
        }
        i += 1;
    }
    false
}

impl PartitionFilter {
    /// Whether this filter accepts the partition `partition`: same column,
    /// and a value that satisfies the filter.
    pub fn match_partition(&self, partition: &DeltaTablePartition) -> (r: bool)
        ensures
            r == filter_accepts(*self, partition.key@, partition.value@),
    {
        if self.key != partition.key {
            return false;
        }
        match &self.value {
            PartitionValue::Equal(v) => *v == partition.value,
            PartitionValue::NotEqual(v) => *v != partition.value,
            PartitionValue::In(vs) => contains_value(vs, &partition.value),
            PartitionValue::NotIn(vs) => !contains_value(vs, &partition.value),
        }
    }

    /// Whether this filter accepts one of `partitions`; a filter on a
    /// column that none of them has accepts none.
    pub fn match_partitions(&self, partitions: &Vec<DeltaTablePartition>) -> (r: bool)
        ensures
            r == filter_accepts_any(*self, partitions@),
    {
        let mut i: usize = 0;
        while i < partitions.len()
            invariant
                i <= partitions@.len(),
                forall|j: int| 0 <= j < i ==> !filter_accepts(*self, (#[trigger] partitions@[j]).key@, partitions@[j].value@),
            decreases partitions@.len() - i,
        {
            if self.match_partition(&partitions[i]) {
                return true;
            }
            i += 1;
        }
        false
    }
}

/// The partitions that the pieces of a path name, in order: each piece of
/// the form `key=value`, the others skipped.
pub open spec fn partitions_of(pieces: Seq<Seq<char>>) -> Seq<(Seq<char>, Seq<char>)>
    decreases pieces.len(),
{
    if pieces.len() == 0 {
        Seq::empty()
    } else {
        match partition_of(pieces.last()) {
            Some(p) => partitions_of(pieces.drop_last()).push(p),
            None => partitions_of(pieces.drop_last()),
        }
    }
}

/// The partitions of a data file path whose table has `n` partition
/// columns: the path is split at `/` into at most `n + 1` pieces.
pub open spec fn path_partitions(path: Seq<char>, n: nat) -> Seq<(Seq<char>, Seq<char>)> {
    partitions_of(splitn(path, n + 1, '/'))
}

/// Whether filter `f` accepts one of the partitions `pp`.
pub open spec fn accepts_some(f: PartitionFilter, pp: Seq<(Seq<char>, Seq<char>)>) -> bool {
    exists|i: int| 0 <= i < pp.len() && filter_accepts(f, (#[trigger] pp[i]).0, pp[i].1)
}

/// Whether every filter accepts one of the partitions of `path`.
pub open spec fn path_selected(path: Seq<char>, n: nat, filters: Seq<PartitionFilter>) -> bool {
    forall|k: int| 0 <= k < filters.len() ==> accepts_some(#[trigger] filters[k], path_partitions(path, n))
}

/// The paths of the files of `files` that every filter selects, in order.
pub open spec fn selected_paths(files: Seq<Add>, n: nat, filters: Seq<PartitionFilter>) -> Seq<Seq<char>>
    decreases files.len(),
{
    if files.len() == 0 {
        Seq::empty()
    } else if path_selected(files.last().path@, n, filters) {
        selected_paths(files.drop_last(), n, filters).push(files.last().path@)
    } else {
        selected_paths(files.drop_last(), n, filters)
    }
}

/// The pairs of a list of partitions.
pub open spec fn partition_pairs(parts: Seq<DeltaTablePartition>) -> Seq<(Seq<char>, Seq<char>)> {
    Seq::new(parts.len(), |i: int| (parts[i].key@, parts[i].value@))
}

/// The partitions of a data file path split into at most `n + 1` pieces.
pub fn file_partitions(path: &str, n: usize) -> (r: Vec<DeltaTablePartition>)
    requires
        n < usize::MAX,
    ensures
        partition_pairs(r@) == path_partitions(path@, n as nat),
{
    let pieces = split_n(path, n + 1, '/');
    let ghost pv = views(pieces@);
    let mut parts: Vec<DeltaTablePartition> = Vec::new();
    let mut i: usize = 0;
    while i < pieces.len()
        invariant
            i <= pieces@.len(),
            pv == views(pieces@),
            pv == splitn(path@, (n + 1) as nat, '/'),
            partition_pairs(parts@) == partitions_of(pv.subrange(0, i as int)),
        decreases pieces@.len() - i,
    {
        assert(pv.subrange(0, i + 1).drop_last() =~= pv.subrange(0, i as int));
        assert(pv.subrange(0, i + 1).last() == pieces@[i as int]@);
        let ghost before = parts@;
        match DeltaTablePartition::from_segment(pieces[i].as_str()) {
            Ok(p) => {
                parts.push(p);
                assert(partition_pairs(parts@) =~= partition_pairs(before).push((p.key@, p.value@)));
            },
            Err(_) => {},
        }
        i += 1;
    }
    assert(pv.subrange(0, pieces@.len() as int) =~= pv);
    parts
}

/// Whether every filter of `filters` accepts one of `parts`.
fn all_filters_match(filters: &Vec<PartitionFilter>, parts: &Vec<DeltaTablePartition>) -> (r: bool)
    ensures
        r == forall|k: int| 0 <= k < filters@.len() ==> #[trigger] filter_accepts_any(filters@[k], parts@),
{
    let mut k: usize = 0;
    while k < filters.len()
        invariant
            k <= filters@.len(),
            forall|j: int| 0 <= j < k ==> #[trigger] filter_accepts_any(filters@[j], parts@),
        decreases filters@.len() - k,
    {
        if !filters[k].match_partitions(parts) {
            return false;
        }
        k += 1;
    }
    true
}

proof fn lemma_selected(filters: Seq<PartitionFilter>, parts: Seq<DeltaTablePartition>, path: Seq<char>, n: nat)
    requires
        partition_pairs(parts) == path_partitions(path, n),
    ensures
        (forall|k: int| 0 <= k < filters.len() ==> #[trigger] filter_accepts_any(filters[k], parts))
            == path_selected(path, n, filters),
{
    let pp = path_partitions(path, n);
    assert(pp.len() == parts.len());
    assert forall|f: PartitionFilter| filter_accepts_any(f, parts) == accepts_some(f, pp) by {
        if filter_accepts_any(f, parts) {
            let i = choose|i: int| 0 <= i < parts.len() && filter_accepts(f, (#[trigger] parts[i]).key@, parts[i].value@);
            assert(pp[i] == partition_pairs(parts)[i]);
        }
        if accepts_some(f, pp) {
            let i = choose|i: int| 0 <= i < pp.len() && filter_accepts(f, (#[trigger] pp[i]).0, pp[i].1);
            assert(pp[i] == partition_pairs(parts)[i]);
            assert(filter_accepts(f, parts[i].key@, parts[i].value@));
        }
    }
}

impl DeltaTable {
    /// The paths of the live data files that every filter selects, in
    /// replay order. A file's partitions are read from its path split at
    /// `/` into at most one piece more than the table has partition columns.
    /// Fails when the table has no metadata or no partition columns.
    pub fn get_files_by_partitions(&self, filters: &Vec<PartitionFilter>) -> (r: Result<Vec<String>, DeltaTableError>)
        requires
            self.snapshot().current_metadata matches Some(m) ==> m.partition_columns@.len() < usize::MAX,
        ensures
            match self.snapshot().current_metadata {
                None => r matches Err(DeltaTableError::NoMetadata),
                Some(m) => if m.partition_columns@.len() == 0 {
                    r matches Err(DeltaTableError::LoadPartitions)
                } else {
                    r matches Ok(v) && views(v@) == selected_paths(self.snapshot().files, m.partition_columns@.len(), filters@)
                },
            },
    {
        let n = match &self.state.current_metadata {
            None => return Err(DeltaTableError::NoMetadata),
            Some(m) => m.partition_columns.len(),
        };
        if n == 0 {
            return Err(DeltaTableError::LoadPartitions);
        }
        let files = &self.state.files;
        let mut r: Vec<String> = Vec::new();
        let mut i: usize = 0;
        while i < files.len()
            invariant
                i <= files@.len(),
                n < usize::MAX,
                views(r@) == selected_paths(files@.subrange(0, i as int), n as nat, filters@),
            decreases files@.len() - i,
        {
            let parts = file_partitions(files[i].path.as_str(), n);
            let keep = all_filters_match(filters, &parts);
            proof {
                lemma_selected(filters@, parts@, files@[i as int].path@, n as nat);
                assert(files@.subrange(0, i + 1).drop_last() =~= files@.subrange(0, i as int));
                assert(files@.subrange(0, i + 1).last() == files@[i as int]);
            }
            if keep {
                let ghost before = r@;
                r.push(files[i].path.clone());
                assert(views(r@) =~= views(before).push(files@[i as int].path@));
            }
            i += 1;
        }
        assert(files@.subrange(0, files@.len() as int) =~= files@);
        Ok(r)
    }

    /// The full paths of the live data files that every filter selects.
    pub fn get_file_paths_by_partitions(&self, filters: &Vec<PartitionFilter>) -> (r: Result<Vec<String>, DeltaTableError>)
        requires
            self.snapshot().current_metadata matches Some(m) ==> m.partition_columns@.len() < usize::MAX,
        ensures
            match self.snapshot().current_metadata {
                None => r matches Err(DeltaTableError::NoMetadata),
                Some(m) => if m.partition_columns@.len() == 0 {
                    r matches Err(DeltaTableError::LoadPartitions)
                } else {
                    r matches Ok(v) && v@.len() == selected_paths(self.snapshot().files, m.partition_columns@.len(), filters@).len()
                        && forall|i: int| 0 <= i < v@.len() ==> (#[trigger] v@[i])@ == joined(
                            self.table_path@, self.sep(),
                            selected_paths(self.snapshot().files, m.partition_columns@.len(), filters@)[i],
                        )
                },
            },
    {
        let files = self.get_files_by_partitions(filters)?;
        let mut r: Vec<String> = Vec::new();
        let mut i: usize = 0;
        while i < files.len()
            invariant
                i <= files@.len(),
                r@.len() == i,
                forall|j: int| 0 <= j < i ==> (#[trigger] r@[j])@ == joined(self.table_path@, self.separator@, files@[j]@),
            decreases files@.len() - i,
        {
            r.push(join_path(self.table_path.as_str(), self.separator.as_str(), files[i].as_str()));
            i += 1;
        }
        proof {
            assert forall|j: int| 0 <= j < r@.len() implies files@[j]@ == views(files@)[j] by {}
        }
        Ok(r)
    }
}

} // verus!
