//! What the table engine needs to know of a storage backend: the errors it
//! reports and the metadata of a listed or probed object.

use vstd::prelude::*;

verus! {

/// An error that a storage backend reports.
#[derive(Debug)]
pub enum StorageError {
    /// The object does not exist.
    NotFound,
    /// The destination of a rename already exists.
    AlreadyExists(String),
    /// An I/O failure, with its description.
    Io {
        /// What the backend reported.
        message: String,
    },
    /// Any other backend failure, with its description.
    Generic(String),
}

/// Metadata of a stored object.
#[derive(Clone, Debug)]
pub struct ObjectMeta {
    /// Full path of the object.
    pub path: String,
    /// Time of the object's last modification, in seconds since the Unix
    /// epoch.
    pub modified: i64,
}

/// How a rename ends under the storage contract.
pub enum RenameOutcome {
    /// The source moved to the destination.
    Renamed,
    /// The source does not exist.
    SourceMissing,
    /// The destination exists; nothing changed.
    DestinationExists,
}

/// What the storage contract says a rename from `src` to `dst` does to a
/// store (paths to contents): it refuses an existing destination and
/// leaves the store as it was; otherwise it moves the content.
pub open spec fn rename_in(store: Map<Seq<char>, Seq<u8>>, src: Seq<char>, dst: Seq<char>) -> (RenameOutcome, Map<Seq<char>, Seq<u8>>) {
    if store.contains_key(dst) {
        (RenameOutcome::DestinationExists, store)
    } else if !store.contains_key(src) {
        (RenameOutcome::SourceMissing, store)
    } else {
        (RenameOutcome::Renamed, store.remove(src).insert(dst, store[src]))
    }
}

/// Two writers stage their entries under distinct temporary paths and race
/// to rename them to the same version path: whichever rename the store
/// performs first succeeds, and the other is refused because the
/// destination exists, which the writer sees as `AlreadyExists`.
pub proof fn rename_linearization(store: Map<Seq<char>, Seq<u8>>, a: Seq<char>, b: Seq<char>, dst: Seq<char>)
    requires
        store.contains_key(a),
        store.contains_key(b),
        a != b,
        a != dst,
        b != dst,
        !store.contains_key(dst),
    ensures
        rename_in(store, a, dst).0 is Renamed,
        rename_in(rename_in(store, a, dst).1, b, dst).0 is DestinationExists,
        rename_in(rename_in(store, a, dst).1, b, dst).1 == rename_in(store, a, dst).1,
        rename_in(store, a, dst).1[dst] == store[a],
{
}

} // verus!
