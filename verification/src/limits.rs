//! Size and count limits applied while repository metadata is loaded.

use vstd::prelude::*;

verus! {

/// Limits used when fetching repository metadata.
///
/// They bound how much data a repository can make the client read, so that an
/// endless stream of bytes cannot exhaust it. Set them above what a repository
/// can reasonably publish, yet low enough to be harmless.
#[derive(Debug, Clone)]
pub struct Limits {
    /// The largest accepted size in bytes of a downloaded root metadata file.
    pub max_root_size: u64,
    /// The largest accepted size in bytes of the targets metadata file when the
    /// snapshot metadata does not list its size.
    pub max_targets_size: u64,
    /// The largest accepted size in bytes of the timestamp metadata file.
    pub max_timestamp_size: u64,
    /// The largest number of root metadata updates followed in one load.
    pub max_root_updates: u64,
}

impl Default for Limits {
    fn default() -> (limits: Self)
        ensures
            limits.max_root_size == 1024 * 1024,
            limits.max_targets_size == 10 * 1024 * 1024,
            limits.max_timestamp_size == 1024 * 1024,
            limits.max_root_updates == 1024,
    {
        Limits {
            max_root_size: 1024 * 1024,
            max_targets_size: 1024 * 1024 * 10,
            max_timestamp_size: 1024 * 1024,
            max_root_updates: 1024,
        }
    }
}

} // verus!
