//! The metadata domains that bootstrap keeps in sync, and the error a
//! failed snapshot load surfaces.

use vstd::prelude::*;

verus! {

/// One independently-cached metadata kind. The first six have a live
/// change watcher; the two file-list views are loaded once and then
/// mutated directly by the ingestion and compaction subsystems.
#[derive(Clone, Copy, PartialEq, Eq, Structural, Debug)]
pub enum Domain {
    Functions,
    Users,
    Schemas,
    LeaderAssignment,
    Alerts,
    Triggers,
    FileListLocal,
    FileListRemote,
}

impl Domain {
    /// Whether this domain has a live change watcher subscription.
    pub open spec fn spec_is_watched(self) -> bool {
        !(self == Domain::FileListLocal || self == Domain::FileListRemote)
    }

    /// Executable twin of `spec_is_watched`.
    pub fn is_watched(self) -> (r: bool)
        ensures
            r == self.spec_is_watched(),
    {
        !(self == Domain::FileListLocal || self == Domain::FileListRemote)
    }
}

/// A fatal bootstrap failure: the snapshot load of one required domain
/// returned an error, which aborts startup before any subsystem runs.
#[derive(Clone, Copy, PartialEq, Eq, Structural, Debug)]
pub enum BootstrapError {
    CacheFailed(Domain),
}

impl BootstrapError {
    /// The domain whose snapshot load failed.
    pub fn domain(&self) -> (d: Domain)
        ensures
            self matches BootstrapError::CacheFailed(x) && d == x,
    {
        match self {
            BootstrapError::CacheFailed(d) => *d,
        }
    }
}

} // verus!
