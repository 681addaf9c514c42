//! Where the log entries and checkpoints of a table live, and how listed
//! checkpoint files are recognised.

use vstd::prelude::*;

use crate::text::{
    all_digits, digits_value, ends_with, is_suffix, parse_decimal, push_signed_zero_padded,
    push_zero_padded, signed_zero_padded, zero_padded,
};

verus! {

/// Descriptor of a checkpoint: the version it condenses, its size and, for a
/// checkpoint split into several files, their number.
///
/// Two descriptors are equal when their versions are.
#[derive(Clone, Copy, Debug, Default)]
pub struct CheckPoint {
    /// Table version that the checkpoint condenses.
    pub version: i64,
    /// Number of actions in the checkpoint.
    pub size: i64,
    /// Number of files of a multi-part checkpoint.
    pub parts: Option<u32>,
}

impl CheckPoint {
    /// A checkpoint descriptor.
    pub fn new(version: i64, size: i64, parts: Option<u32>) -> (r: CheckPoint)
        ensures
            r.version == version,
            r.size == size,
            r.parts == parts,
    {
        CheckPoint { version, size, parts }
    }
}

impl PartialEq for CheckPoint {
    fn eq(&self, other: &CheckPoint) -> (r: bool) {
        self.version == other.version
    }
}

impl vstd::std_specs::cmp::PartialEqSpecImpl for CheckPoint {
    open spec fn obeys_eq_spec() -> bool {
        true
    }

    open spec fn eq_spec(&self, other: &CheckPoint) -> bool {
        self.version == other.version
    }
}

impl Eq for CheckPoint {}

/// `name` joined under `base` with the separator `sep`, which is not doubled
/// when `base` already ends with it.
pub open spec fn joined(base: Seq<char>, sep: Seq<char>, name: Seq<char>) -> Seq<char> {
    if is_suffix(sep, base) {
        base + name
    } else {
        base + sep + name
    }
}

/// Joins `name` under `base` with the separator `sep`.
pub fn join_path(base: &str, sep: &str, name: &str) -> (r: String)
    ensures
        r@ == joined(base@, sep@, name@),
{
    let mut out = String::from_str(base);
    if !ends_with(base, sep) {
        out.append(sep);
    }
    out.append(name);
    out
}

/// File name of the log entry of version `v`.
pub open spec fn log_file_name(v: int) -> Seq<char> {
    signed_zero_padded(v, 20) + ".json"@
}

/// File name of the staged commit with token `token`.
pub open spec fn tmp_commit_file_name(token: Seq<char>) -> Seq<char> {
    "_commit_"@ + token + ".json"@
}

/// Name of the file that holds the last checkpoint's descriptor.
pub open spec fn last_checkpoint_file_name() -> Seq<char> {
    "_last_checkpoint"@
}

/// Name of the log directory under the table root.
pub open spec fn log_dir_name() -> Seq<char> {
    "_delta_log"@
}

/// Path of the single file of a checkpoint, from the path prefix of its
/// version.
pub open spec fn single_checkpoint_path(prefix: Seq<char>) -> Seq<char> {
    prefix + ".checkpoint.parquet"@
}

/// Path of part `i` (from 1) of `n` of a checkpoint, from the path prefix of
/// its version.
pub open spec fn checkpoint_part_path(prefix: Seq<char>, i: nat, n: nat) -> Seq<char> {
    prefix + ".checkpoint."@ + zero_padded(i, 10) + "."@ + zero_padded(n, 10) + ".parquet"@
}

/// The paths of the files of checkpoint `cp`, in part order.
pub open spec fn checkpoint_paths(prefix: Seq<char>, cp: CheckPoint) -> Seq<Seq<char>> {
    match cp.parts {
        None => seq![single_checkpoint_path(prefix)],
        Some(n) => Seq::new(n as nat, |i: int| checkpoint_part_path(prefix, (i + 1) as nat, n as nat)),
    }
}

/// The file name of the log entry of version `v`.
pub fn log_file_name_of(v: i64) -> (r: String)
    ensures
        r@ == log_file_name(v as int),
{
    let mut out = String::new();
    push_signed_zero_padded(&mut out, v, 20);
    out.append(".json");
    out
}

/// The paths of the files of checkpoint `cp` whose version prefix is
/// `prefix`, in part order.
pub fn checkpoint_paths_of(prefix: &str, cp: &CheckPoint) -> (r: Vec<String>)
    ensures
        r@.len() == checkpoint_paths(prefix@, *cp).len(),
        forall|i: int| 0 <= i < r@.len() ==> (#[trigger] r@[i])@ == checkpoint_paths(prefix@, *cp)[i],
{
    let mut paths: Vec<String> = Vec::new();
    match cp.parts {
        None => {
            let mut p = String::from_str(prefix);
            p.append(".checkpoint.parquet");
            paths.push(p);
        },
        Some(n) => {
            let mut i: u32 = 0;
            while i < n
                invariant
                    cp.parts == Some(n),
                    i <= n,
                    paths@.len() == i,
                    forall|j: int| 0 <= j < i ==> (#[trigger] paths@[j])@ == checkpoint_paths(prefix@, *cp)[j],
                decreases n - i,
            {
                let mut p = String::from_str(prefix);
                p.append(".checkpoint.");
                push_zero_padded(&mut p, i as u64 + 1, 10);
                p.append(".");
                push_zero_padded(&mut p, n as u64, 10);
                p.append(".parquet");
                paths.push(p);
                i += 1;
            }
        },
    }
    paths
}

/// The text that group `group` of the first match of the regular expression
/// `pattern` in `text` captured, or `None` when the pattern does not compile,
/// does not match, or the group took no part in the match.
pub uninterp spec fn regex_group(pattern: Seq<char>, text: Seq<char>, group: nat) -> Option<Seq<char>>;

/// Relies on `regex::Regex::new`, `Regex::captures` and `Captures::get`: the
/// text of one capture group of the leftmost-first match.
#[verifier::external_body]
fn capture_group(pattern: &str, text: &str, group: usize) -> (r: Option<String>)
    ensures
        r is None <==> regex_group(pattern@, text@, group as nat) is None,
        r matches Some(g) ==> regex_group(pattern@, text@, group as nat) == Some(g@),
{
    match regex::Regex::new(pattern) {
        Ok(re) => match re.captures(text) {
            Some(caps) => match caps.get(group) {
                Some(m) => Some(m.as_str().to_string()),
                None => None,
            },
            None => None,
        },
        Err(_) => None,
    }
}

/// Pattern of a single-file checkpoint path; group 1 is the version.
pub open spec fn single_checkpoint_pattern() -> Seq<char> {
    "[/\\\\]_delta_log[/\\\\](\\d{20})\\.checkpoint\\.parquet$"@
}

/// Pattern of a multi-part checkpoint path; group 1 is the version, group 2
/// the number of parts.
pub open spec fn multi_checkpoint_pattern() -> Seq<char> {
    "[/\\\\]_delta_log[/\\\\](\\d{20})\\.checkpoint\\.\\d{10}\\.(\\d{10})\\.parquet$"@
}

/// The value of a string of decimal digits, when it is one.
pub open spec fn decimal_value(s: Seq<char>) -> Option<nat> {
    if s.len() > 0 && all_digits(s) {
        Some(digits_value(s))
    } else {
        None
    }
}

/// The checkpoint, if any, that the listed path `path` names, with size 0:
/// the single-file pattern is tried first, then the multi-part one. A
/// version or part count that does not fit its integer type names none.
pub open spec fn listed_checkpoint(path: Seq<char>) -> Option<CheckPoint> {
    match regex_group(single_checkpoint_pattern(), path, 1) {
        Some(v) => match decimal_value(v) {
            Some(x) if x <= i64::MAX => Some(CheckPoint { version: x as i64, size: 0, parts: None }),
            _ => None,
        },
        None => match (regex_group(multi_checkpoint_pattern(), path, 1), regex_group(multi_checkpoint_pattern(), path, 2)) {
            (Some(v), Some(n)) => match (decimal_value(v), decimal_value(n)) {
                (Some(x), Some(k)) if x <= i64::MAX && k <= u32::MAX => Some(
                    CheckPoint { version: x as i64, size: 0, parts: Some(k as u32) },
                ),
                _ => None,
            },
            _ => None,
        },
    }
}

/// The checkpoint with the greatest version `<= limit` among those that
/// `paths` name; of two with the same version, the first listed.
pub open spec fn latest_checkpoint(paths: Seq<Seq<char>>, limit: int) -> Option<CheckPoint>
    decreases paths.len(),
{
    if paths.len() == 0 {
        None
    } else {
        let prev = latest_checkpoint(paths.drop_last(), limit);
        match listed_checkpoint(paths.last()) {
            Some(c) => if c.version <= limit && (prev is None || c.version > prev->0.version) {
                Some(c)
            } else {
                prev
            },
            None => prev,
        }
    }
}

/// Reads a version and an optional part count captured from a checkpoint
/// path. The version must fit `i64` and the part count `u32`.
pub fn checkpoint_from_captures(version: &str, parts: Option<&str>) -> (r: Option<CheckPoint>)
    ensures
        r == (match (decimal_value(version@), parts) {
            (Some(x), None) if x <= i64::MAX => Some(CheckPoint { version: x as i64, size: 0, parts: None }),
            (Some(x), Some(p)) => match decimal_value(p@) {
                Some(k) if x <= i64::MAX && k <= u32::MAX => Some(
                    CheckPoint { version: x as i64, size: 0, parts: Some(k as u32) },
                ),
                _ => None,
            },
            _ => None,
        }),
{
    let v = match parse_decimal(version) {
        Some(v) => v,
        None => return None,
    };
    if v > i64::MAX as u64 {
        return None;
    }
    match parts {
        None => Some(CheckPoint { version: v as i64, size: 0, parts: None }),
        Some(p) => match parse_decimal(p) {
            Some(k) => if k <= u32::MAX as u64 {
                Some(CheckPoint { version: v as i64, size: 0, parts: Some(k as u32) })
            } else {
                None
            },
            None => None,
        },
    }
}

/// The checkpoint, if any, that the listed path `path` names.
pub fn checkpoint_of_path(path: &str) -> (r: Option<CheckPoint>)
    ensures
        r == listed_checkpoint(path@),
{
    match capture_group("[/\\\\]_delta_log[/\\\\](\\d{20})\\.checkpoint\\.parquet$", path, 1) {
        Some(v) => checkpoint_from_captures(v.as_str(), None),
        None => {
            let pattern = "[/\\\\]_delta_log[/\\\\](\\d{20})\\.checkpoint\\.\\d{10}\\.(\\d{10})\\.parquet$";
            match (capture_group(pattern, path, 1), capture_group(pattern, path, 2)) {
                (Some(v), Some(n)) => checkpoint_from_captures(v.as_str(), Some(n.as_str())),
                _ => None,
            }
        },
    }
}

/// Among the listed paths of the log directory, the checkpoint with the
/// greatest version not above `limit`.
pub fn latest_checkpoint_in(paths: &Vec<String>, limit: i64) -> (r: Option<CheckPoint>)
    ensures
        r == latest_checkpoint(Seq::new(paths@.len(), |i: int| paths@[i]@), limit as int),
{
    let ghost views = Seq::new(paths@.len(), |i: int| paths@[i]@);
    let mut cp: Option<CheckPoint> = None;
    let mut i: usize = 0;
    while i < paths.len()
        invariant
            i <= paths@.len(),
            views == Seq::new(paths@.len(), |i: int| paths@[i]@),
            cp == latest_checkpoint(views.subrange(0, i as int), limit as int),
        decreases paths@.len() - i,
    {
        let found = checkpoint_of_path(paths[i].as_str());
        assert(views.subrange(0, i + 1).drop_last() =~= views.subrange(0, i as int));
        assert(views.subrange(0, i + 1).last() == paths@[i as int]@);
        match found {
            Some(c) => {
                if c.version <= limit && (cp.is_none() || c.version > cp.unwrap().version) {
                    cp = Some(c);
                }
            },
            None => {},
        }
        i += 1;
    }
    assert(views.subrange(0, paths@.len() as int) =~= views);
    cp
}

} // verus!
