//! Choosing the version of a table as of a point in time: a binary search
//! over the modification times of its log entries.
//!
//! The search performs no I/O: [`VersionSearch::pivot`] names the version
//! whose modification time it needs next, and [`VersionSearch::observe`]
//! takes that time.

use vstd::prelude::*;

verus! {

/// State of a binary search for the latest version whose log entry was
/// modified at or before `target`, over the versions `0..=max_version` given
/// when it started.
#[derive(Clone, Copy, Debug)]
pub struct VersionSearch {
    /// Lowest version still in range.
    pub min_version: i64,
    /// Highest version still in range.
    pub max_version: i64,
    /// The current candidate.
    pub version: i64,
    /// The point in time, in seconds since the Unix epoch.
    pub target: i64,
    /// Whether a version modified exactly at `target` was found.
    pub found: bool,
}

/// The search's state before any step.
pub open spec fn search_start(max_version: i64, target: i64) -> VersionSearch {
    VersionSearch { min_version: 0, max_version, version: 0, target, found: false }
}

/// Whether the search is over.
pub open spec fn search_done(s: VersionSearch) -> bool {
    s.found || s.min_version > s.max_version
}

/// The version whose modification time the search needs next.
pub open spec fn search_pivot(s: VersionSearch) -> int {
    s.min_version + (s.max_version - s.min_version) / 2
}

/// One step of the search, given the modification time `pts` of the
/// pivot's log entry: an exact match ends it; an earlier time moves the low
/// end past the pivot; a later one moves the high end, and the candidate,
/// below it.
pub open spec fn search_step(s: VersionSearch, pts: i64) -> VersionSearch {
    let p = search_pivot(s);
    if pts == s.target {
        VersionSearch { version: p as i64, found: true, ..s }
    } else if pts < s.target {
        VersionSearch { version: p as i64, min_version: (p + 1) as i64, ..s }
    } else {
        VersionSearch { version: (p - 1) as i64, max_version: (p - 1) as i64, ..s }
    }
}

/// The version the search settles on: its candidate, or 0 when that is
/// negative.
pub open spec fn search_result(s: VersionSearch) -> int {
    if s.version < 0 { 0 } else { s.version as int }
}

/// Bounds that every state of a search keeps.
pub open spec fn search_wf(s: VersionSearch) -> bool {
    &&& 0 <= s.min_version
    &&& -1 <= s.max_version < i64::MAX
    &&& s.min_version <= s.max_version + 1
}

/// The search run to its end, each pivot's time read from `ts` (the
/// modification time of each version's log entry).
pub open spec fn run_search(ts: Seq<i64>, s: VersionSearch) -> VersionSearch
    decreases s.max_version - s.min_version + 1 + (if s.found { 0int } else { 1int }),
{
    if !search_wf(s) || search_done(s) || search_pivot(s) >= ts.len() {
        s
    } else {
        run_search(ts, search_step(s, ts[search_pivot(s)]))
    }
}

impl VersionSearch {
    /// Starts a search over the versions `0..=max_version` for the latest
    /// one modified at or before `target`.
    pub fn new(max_version: i64, target: i64) -> (r: VersionSearch)
        requires
            max_version < i64::MAX,
        ensures
            r == search_start(max_version, target),
    {
        VersionSearch { min_version: 0, max_version, version: 0, target, found: false }
    }

    /// The version whose modification time is needed next, or `None` when
    /// the search is over.
    pub fn pivot(&self) -> (r: Option<i64>)
        requires
            search_wf(*self),
        ensures
            search_done(*self) <==> r is None,
            r matches Some(p) ==> p == search_pivot(*self),
    {
        if self.found || self.min_version > self.max_version {
            None
        } else {
            Some(self.min_version + (self.max_version - self.min_version) / 2)
        }
    }

    /// Takes the modification time `pts` of the pivot's log entry.
    pub fn observe(&mut self, pts: i64)
        requires
            search_wf(*old(self)),
            !search_done(*old(self)),
        ensures
            *final(self) == search_step(*old(self), pts),
            search_wf(*final(self)),
            final(self).max_version - final(self).min_version < old(self).max_version - old(self).min_version
                || final(self).found,
    {
        let p = self.min_version + (self.max_version - self.min_version) / 2;
        self.version = p;
        if pts == self.target {
            self.found = true;
        } else if pts < self.target {
            self.min_version = p + 1;
        } else {
            self.max_version = p - 1;
            self.version = self.max_version;
        }
    }

    /// The version the search settles on.
    pub fn resolved(&self) -> (r: i64)
        ensures
            r == search_result(*self),
    {
        if self.version < 0 { 0 } else { self.version }
    }
}

/// What holds of every state of a search over strictly increasing times
/// `ts` for `t`: versions below the range are earlier than `t`, versions
/// above it later, and the candidate is tied to the range.
pub open spec fn search_inv(ts: Seq<i64>, s: VersionSearch) -> bool {
    &&& search_wf(s)
    &&& s.max_version < ts.len()
    &&& forall|i: int| 0 <= i < s.min_version ==> ts[i] < s.target
    &&& forall|i: int| s.max_version < i < ts.len() ==> ts[i] > s.target
    &&& s.found ==> 0 <= s.version < ts.len() && ts[s.version as int] == s.target
    &&& !s.found ==> (s.version == s.min_version - 1 || s.version == s.max_version
        || (s.min_version == 0 && s.version == 0))
}

proof fn lemma_run_search(ts: Seq<i64>, s: VersionSearch)
    requires
        search_inv(ts, s),
        forall|i: int, j: int| 0 <= i < j < ts.len() ==> ts[i] < ts[j],
    ensures
        search_inv(ts, run_search(ts, s)),
        search_done(run_search(ts, s)),
        run_search(ts, s).target == s.target,
    decreases s.max_version - s.min_version + 1 + (if s.found { 0int } else { 1int }),
{
    if !search_done(s) {
        let p = search_pivot(s);
        let n = search_step(s, ts[p]);
        if ts[p] < s.target {
            assert forall|i: int| 0 <= i < n.min_version implies ts[i] < n.target by {
                if i < p {
                    assert(ts[i] < ts[p]);
                }
            }
        } else if ts[p] > s.target {
            assert forall|i: int| n.max_version < i < ts.len() implies ts[i] > n.target by {
                if i > p {
                    assert(ts[p] < ts[i]);
                }
            }
        }
        lemma_run_search(ts, n);
    }
}

/// A search over the strictly increasing modification times `ts` of the
/// versions `0..ts.len()`, for a time `t` not before the first of them,
/// settles on a version `v` with `ts[v] <= t`, and `t < ts[v + 1]` when
/// `v` is not the last version.
pub proof fn time_travel_bound(ts: Seq<i64>, t: i64)
    requires
        1 <= ts.len() < i64::MAX,
        forall|i: int, j: int| 0 <= i < j < ts.len() ==> ts[i] < ts[j],
        ts[0] <= t,
    ensures
        ({
            let v = search_result(run_search(ts, search_start((ts.len() - 1) as i64, t)));
            &&& 0 <= v < ts.len()
            &&& ts[v] <= t
            &&& v + 1 < ts.len() ==> t < ts[v + 1]
        }),
{
    let s0 = search_start((ts.len() - 1) as i64, t);
    lemma_run_search(ts, s0);
    let f = run_search(ts, s0);
    if !f.found {
        assert(f.min_version == f.max_version + 1);
        assert(f.max_version >= 0) by {
            if f.max_version < 0 {
                assert(ts[0] > t);
            }
        }
        assert(f.version == f.max_version);
        let v = f.version as int;
        assert(ts[v] < t);
        if v + 1 < ts.len() {
            assert(ts[v + 1] > t);
        }
    } else {
        let v = f.version as int;
        if v + 1 < ts.len() {
            assert(ts[v] < ts[v + 1]);
        }
    }
}

} // verus!
