//! The persisted projection of a course: the record the import writes and
//! the RPC layer reads.

pub mod celcat;

use vstd::prelude::*;

use crate::datetime::DateTime;

verus! {

/// The persisted detail record of one course occurrence.
///
/// Created or overwritten by exactly one worker invocation per
/// synchronization pass; never deleted by this subsystem.
#[derive(Debug, PartialEq, Eq)]
pub struct Course {
    /// Unique ID: the deduplication key.
    pub id: String,
    pub start_time: DateTime,
    pub end_time: Option<DateTime>,
    pub category: Option<String>,
    /// Subject being taught.
    pub module: Option<String>,
    pub room: Option<String>,
    pub teacher: Option<String>,
    /// Any additional description.
    pub description: Option<String>,
}

} // verus!
