//! The table state that replaying actions produces.

use vstd::prelude::*;

use crate::action::{Action, Add, Format, MetaData, Remove};
use crate::text::str_eq;

verus! {

/// Metadata of the table as of the replayed version.
#[derive(Clone, Debug)]
pub struct DeltaTableMetaData {
    /// Unique identifier of the table.
    pub id: String,
    /// User-provided name of the table.
    pub name: Option<String>,
    /// User-provided description of the table.
    pub description: Option<String>,
    /// Encoding of the data files.
    pub format: Format,
    /// Schema of the table, serialized as JSON.
    pub schema: String,
    /// Columns by which the data files are partitioned, in path order.
    pub partition_columns: Vec<String>,
    /// Time the metadata was created, in milliseconds since the Unix epoch.
    pub created_time: i64,
    /// Table properties.
    pub configuration: Vec<(String, String)>,
}

/// The table metadata that a `metaData` action sets.
pub open spec fn metadata_of(m: MetaData) -> DeltaTableMetaData {
    DeltaTableMetaData {
        id: m.id,
        name: m.name,
        description: m.description,
        format: m.format,
        schema: m.schema_string,
        partition_columns: m.partition_columns,
        created_time: m.created_time,
        configuration: m.configuration,
    }
}

impl DeltaTableMetaData {
    /// The table metadata that a `metaData` action sets.
    pub fn from_action(m: MetaData) -> (r: DeltaTableMetaData)
        ensures
            r == metadata_of(m),
    {
        DeltaTableMetaData {
            id: m.id,
            name: m.name,
            description: m.description,
            format: m.format,
            schema: m.schema_string,
            partition_columns: m.partition_columns,
            created_time: m.created_time,
            configuration: m.configuration,
        }
    }
}

/// The mathematical view of a table state.
pub struct TableSnapshot {
    /// Live data files, in replay order.
    pub files: Seq<Add>,
    /// Every remove action replayed, in order.
    pub tombstones: Seq<Remove>,
    /// Commit information, as raw JSON texts, in order.
    pub commit_infos: Seq<Seq<char>>,
    /// Last version recorded for each application.
    pub app_transaction_version: Map<Seq<char>, i64>,
    /// Minimum reader protocol version.
    pub min_reader_version: i32,
    /// Minimum writer protocol version.
    pub min_writer_version: i32,
    /// Latest table metadata.
    pub current_metadata: Option<DeltaTableMetaData>,
}

/// The state of a table as of some version: the projection of its log.
#[derive(Debug)]
pub struct DeltaTableState {
    /// Every remove action replayed, in order.
    pub tombstones: Vec<Remove>,
    /// Live data files, in replay order.
    pub files: Vec<Add>,
    /// Commit information, as raw JSON texts, in order.
    pub commit_infos: Vec<String>,
    /// Application transaction versions; a later entry for an application
    /// overrides an earlier one.
    pub app_transaction_version: Vec<(String, i64)>,
    /// Minimum reader protocol version.
    pub min_reader_version: i32,
    /// Minimum writer protocol version.
    pub min_writer_version: i32,
    /// Latest table metadata.
    pub current_metadata: Option<DeltaTableMetaData>,
}

/// The map that a list of (application, version) entries stands for: later
/// entries override earlier ones.
pub open spec fn txn_map(s: Seq<(String, i64)>) -> Map<Seq<char>, i64>
    decreases s.len(),
{
    if s.len() == 0 {
        Map::empty()
    } else {
        txn_map(s.drop_last()).insert(s.last().0@, s.last().1)
    }
}

/// The commit information texts of a list of strings.
pub open spec fn texts(s: Seq<String>) -> Seq<Seq<char>> {
    Seq::new(s.len(), |i: int| s[i]@)
}

impl View for DeltaTableState {
    type V = TableSnapshot;

    open spec fn view(&self) -> TableSnapshot {
        TableSnapshot {
            files: self.files@,
            tombstones: self.tombstones@,
            commit_infos: texts(self.commit_infos@),
            app_transaction_version: txn_map(self.app_transaction_version@),
            min_reader_version: self.min_reader_version,
            min_writer_version: self.min_writer_version,
            current_metadata: self.current_metadata,
        }
    }
}

/// The state before any action: no files, no metadata, protocol versions 0.
pub open spec fn empty_snapshot() -> TableSnapshot {
    TableSnapshot {
        files: Seq::empty(),
        tombstones: Seq::empty(),
        commit_infos: Seq::empty(),
        app_transaction_version: Map::empty(),
        min_reader_version: 0,
        min_writer_version: 0,
        current_metadata: None,
    }
}

/// `files` without the entries whose path is `p`, order kept.
pub open spec fn without_path(files: Seq<Add>, p: Seq<char>) -> Seq<Add>
    decreases files.len(),
{
    if files.len() == 0 {
        files
    } else if files.last().path@ == p {
        without_path(files.drop_last(), p)
    } else {
        without_path(files.drop_last(), p).push(files.last())
    }
}

/// The effect of one action on a table state.
pub open spec fn apply_action(s: TableSnapshot, a: Action) -> TableSnapshot {
    match a {
        Action::Add(add) => TableSnapshot { files: s.files.push(add), ..s },
        Action::Remove(rm) => TableSnapshot {
            files: without_path(s.files, rm.path@),
            tombstones: s.tombstones.push(rm),
            ..s
        },
        Action::Protocol(p) => TableSnapshot {
            min_reader_version: p.min_reader_version,
            min_writer_version: p.min_writer_version,
            ..s
        },
        Action::MetaData(m) => TableSnapshot { current_metadata: Some(metadata_of(m)), ..s },
        Action::Txn(t) => TableSnapshot {
            app_transaction_version: s.app_transaction_version.insert(t.app_id@, t.version),
            ..s
        },
        Action::CommitInfo(c) => TableSnapshot { commit_infos: s.commit_infos.push(c@), ..s },
    }
}

/// The state after applying `acts` in order to `s`.
pub open spec fn replay(s: TableSnapshot, acts: Seq<Action>) -> TableSnapshot
    decreases acts.len(),
{
    if acts.len() == 0 {
        s
    } else {
        apply_action(replay(s, acts.drop_last()), acts.last())
    }
}

proof fn lemma_txn_map_update(s: Seq<(String, i64)>, j: int, e: (String, i64))
    requires
        0 <= j < s.len(),
        s[j].0@ == e.0@,
        forall|k: int| j < k < s.len() ==> (#[trigger] s[k]).0@ != e.0@,
    ensures
        txn_map(s.update(j, e)) == txn_map(s).insert(e.0@, e.1),
    decreases s.len(),
{
    let t = s.update(j, e);
    if j == s.len() - 1 {
        assert(t.drop_last() =~= s.drop_last());
        assert(txn_map(t) =~= txn_map(s).insert(e.0@, e.1));
    } else {
        assert(t.drop_last() =~= s.drop_last().update(j, e));
        lemma_txn_map_update(s.drop_last(), j, e);
        assert(s.last().0@ != e.0@);
        assert(txn_map(t) =~= txn_map(s).insert(e.0@, e.1));
    }
}

impl DeltaTableState {
    /// A state with no files, no metadata and protocol versions 0.
    pub fn new() -> (r: DeltaTableState)
        ensures
            r@ == empty_snapshot(),
    {
        let r = DeltaTableState {
            tombstones: Vec::new(),
            files: Vec::new(),
            commit_infos: Vec::new(),
            app_transaction_version: Vec::new(),
            min_reader_version: 0,
            min_writer_version: 0,
            current_metadata: None,
        };
        assert(r@.commit_infos =~= Seq::<Seq<char>>::empty());
        r
    }

    /// The version last recorded for application `app_id`.
    pub fn app_transaction_version_of(&self, app_id: &str) -> (r: Option<i64>)
        ensures
            r == (if self@.app_transaction_version.contains_key(app_id@) {
                Some(self@.app_transaction_version[app_id@])
            } else {
                None
            }),
    {
        let mut i: usize = self.app_transaction_version.len();
        while i > 0
            invariant
                i <= self.app_transaction_version@.len(),
                forall|k: int| i <= k < self.app_transaction_version@.len()
                    ==> (#[trigger] self.app_transaction_version@[k]).0@ != app_id@,
            decreases i,
        {
            let e = &self.app_transaction_version[i - 1];
            if str_eq(e.0.as_str(), app_id) {
                proof { lemma_txn_map_last(self.app_transaction_version@, i - 1); }
                return Some(e.1);
            }
            i -= 1;
        }
        proof { lemma_txn_map_absent(self.app_transaction_version@, app_id@); }
        None
    }
}

proof fn lemma_txn_map_last(s: Seq<(String, i64)>, j: int)
    requires
        0 <= j < s.len(),
        forall|k: int| j < k < s.len() ==> (#[trigger] s[k]).0@ != s[j].0@,
    ensures
        txn_map(s).contains_key(s[j].0@),
        txn_map(s)[s[j].0@] == s[j].1,
    decreases s.len(),
{
    if j < s.len() - 1 {
        assert(s.drop_last()[j] == s[j]);
        lemma_txn_map_last(s.drop_last(), j);
    }
}

proof fn lemma_txn_map_absent(s: Seq<(String, i64)>, k: Seq<char>)
    requires
        forall|i: int| 0 <= i < s.len() ==> (#[trigger] s[i]).0@ != k,
    ensures
        !txn_map(s).contains_key(k),
    decreases s.len(),
{
    if s.len() > 0 {
        assert forall|i: int| 0 <= i < s.drop_last().len() implies (#[trigger] s.drop_last()[i]).0@ != k by {
            assert(s.drop_last()[i] == s[i]);
        }
        lemma_txn_map_absent(s.drop_last(), k);
    }
}

/// Applies one action to the state.
pub fn process_action(state: &mut DeltaTableState, action: Action)
    ensures
        final(state)@ == apply_action(old(state)@, action),
{
    match action {
        Action::Add(v) => {
            state.files.push(v);
        },
        Action::Remove(v) => {
            remove_files_with_path(&mut state.files, &v.path);
            state.tombstones.push(v);
        },
        Action::Protocol(v) => {
            state.min_reader_version = v.min_reader_version;
            state.min_writer_version = v.min_writer_version;
        },
        Action::MetaData(v) => {
            state.current_metadata = Some(DeltaTableMetaData::from_action(v));
        },
        Action::Txn(v) => {
            set_app_transaction_version(&mut state.app_transaction_version, v.app_id, v.version);
        },
        Action::CommitInfo(v) => {
            let ghost before = state.commit_infos@;
            state.commit_infos.push(v);
            assert(texts(state.commit_infos@) =~= texts(before).push(state.commit_infos@.last()@));
        },
    }
    assert(final(state)@ =~= apply_action(old(state)@, action));
}

/// Drops every file whose path is `path`, keeping the order of the others.
fn remove_files_with_path(files: &mut Vec<Add>, path: &String)
    ensures
        final(files)@ == without_path(old(files)@, path@),
{
    let ghost orig = files@;
    let n = files.len();
    let mut rev: Vec<Add> = Vec::new();
    while files.len() > 0
        invariant
            files@ == orig.subrange(0, files@.len() as int),
            orig.len() == n,
            rev@.len() + files@.len() == n,
            forall|j: int| 0 <= j < rev@.len() ==> #[trigger] rev@[j] == orig[n - 1 - j],
        decreases files@.len(),
    {
        let a = files.pop().unwrap();
        rev.push(a);
    }
    let mut i: usize = 0;
    while rev.len() > 0
        invariant
            orig.len() == n,
            i + rev@.len() == n,
            forall|j: int| 0 <= j < rev@.len() ==> #[trigger] rev@[j] == orig[n - 1 - j],
            files@ == without_path(orig.subrange(0, i as int), path@),
        decreases rev@.len(),
    {
        let a = rev.pop().unwrap();
        assert(a == orig[i as int]);
        assert(orig.subrange(0, i + 1).drop_last() =~= orig.subrange(0, i as int));
        if a.path != *path {
            files.push(a);
        }
        i += 1;
    }
    assert(orig.subrange(0, n as int) =~= orig);
}

/// Records `version` for application `app_id`, overriding an earlier entry.
fn set_app_transaction_version(entries: &mut Vec<(String, i64)>, app_id: String, version: i64)
    ensures
        txn_map(final(entries)@) == txn_map(old(entries)@).insert(app_id@, version),
{
    let mut i: usize = entries.len();
    while i > 0
        invariant
            entries@ == old(entries)@,
            i <= entries@.len(),
            forall|k: int| i <= k < entries@.len() ==> (#[trigger] entries@[k]).0@ != app_id@,
        decreases i,
    {
        if entries[i - 1].0 == app_id {
            let ghost before = entries@;
            let e = (app_id, version);
            proof { lemma_txn_map_update(before, i - 1, e); }
            entries.set(i - 1, e);
            assert(entries@ == before.update(i - 1, e));
            return;
        }
        i -= 1;
    }
    let ghost before = entries@;
    entries.push((app_id, version));
    assert(entries@.drop_last() =~= before);
}

/// Applies `actions` in order to the state.
pub fn apply_actions(state: &mut DeltaTableState, actions: Vec<Action>)
    ensures
        final(state)@ == replay(old(state)@, actions@),
{
    let ghost orig = actions@;
    let n = actions.len();
    let mut actions = actions;
    let mut rev: Vec<Action> = Vec::new();
    while actions.len() > 0
        invariant
            actions@ == orig.subrange(0, actions@.len() as int),
            orig.len() == n,
            rev@.len() + actions@.len() == n,
            forall|j: int| 0 <= j < rev@.len() ==> #[trigger] rev@[j] == orig[n - 1 - j],
        decreases actions@.len(),
    {
        let a = actions.pop().unwrap();
        rev.push(a);
    }
    let mut i: usize = 0;
    while rev.len() > 0
        invariant
            orig.len() == n,
            i + rev@.len() == n,
            forall|j: int| 0 <= j < rev@.len() ==> #[trigger] rev@[j] == orig[n - 1 - j],
            state@ == replay(old(state)@, orig.subrange(0, i as int)),
        decreases rev@.len(),
    {
        let a = rev.pop().unwrap();
        assert(a == orig[i as int]);
        assert(orig.subrange(0, i + 1).drop_last() =~= orig.subrange(0, i as int));
        process_action(state, a);
        i += 1;
    }
    assert(orig.subrange(0, n as int) =~= orig);
}

} // verus!
