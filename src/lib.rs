//! Client core for a log-structured table format stored in an object store.
//!
//! The library replays a table's versioned transaction log into a snapshot,
//! selects historical versions by number or by time, plans vacuum runs and
//! decides the outcome of optimistic commits. All I/O is performed by the
//! caller, which hands the results of storage operations to the step
//! functions of [`table::DeltaTable`] and [`transaction::DeltaTransaction`].

pub mod action;
pub mod datetime;
pub mod errors;
pub mod laws;
pub mod log;
pub mod partitions;
pub mod state;
pub mod storage;
pub mod table;
pub mod text;
pub mod time_travel;
pub mod transaction;
pub mod vacuum;

use vstd::prelude::*;

verus! {

/// Version of this library.
pub fn crate_version() -> (r: &'static str)
    ensures
        r@ == crate_version_text(),
{
    "0.4.0"
}

/// The text that [`crate_version`] returns.
pub open spec fn crate_version_text() -> Seq<char> {
    "0.4.0"@
}

} // verus!
