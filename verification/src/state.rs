//! The process-wide record of the chosen data directory.

use vstd::prelude::*;

use crate::path::FsPath;

verus! {

/// The cached outcome of directory resolution, owned by the locator and kept
/// for the life of the process.
///
/// `data_dir` is the active directory once resolution has succeeded.
/// `using_fallback` records whether the system-provided location was used.
/// `fallback_dir` records, when the fallback is active, the first preferred
/// candidate that failed (diagnostic context).
pub struct StorageState {
    pub data_dir: Option<FsPath>,
    pub using_fallback: bool,
    pub fallback_dir: Option<FsPath>,
}

impl StorageState {
    /// The state before any resolution has happened.
    pub fn new() -> (r: StorageState)
        ensures
            r.data_dir is None,
            !r.using_fallback,
            r.fallback_dir is None,
    {
        StorageState { data_dir: None, using_fallback: false, fallback_dir: None }
    }

    /// Replaces the whole record at once.
    pub fn set(&mut self, dir: FsPath, using_fallback: bool, fallback: Option<FsPath>)
        ensures
            final(self).data_dir == Some(dir),
            final(self).using_fallback == using_fallback,
            final(self).fallback_dir == fallback,
    {
        self.data_dir = Some(dir);
        self.using_fallback = using_fallback;
        self.fallback_dir = fallback;
    }

    /// The active directory, if one has been chosen.
    pub fn current_dir(&self) -> (r: Option<FsPath>)
        ensures
            r is Some <==> self.data_dir is Some,
            r matches Some(d) ==> self.data_dir matches Some(c) && d@ == c@,
    {
        match &self.data_dir {
            Some(d) => Some(d.duplicate()),
            None => None,
        }
    }

    /// Whether the system fallback location is in use.
    pub fn using_fallback(&self) -> (r: bool)
        ensures
            r == self.using_fallback,
    {
        self.using_fallback
    }

    /// The first failed preferred candidate, when the fallback is active.
    pub fn fallback_path(&self) -> (r: Option<FsPath>)
        ensures
            r is Some <==> self.fallback_dir is Some,
            r matches Some(d) ==> self.fallback_dir matches Some(c) && d@ == c@,
    {
        match &self.fallback_dir {
            Some(d) => Some(d.duplicate()),
            None => None,
        }
    }
}

} // verus!
