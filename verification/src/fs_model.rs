//! A value-level model of the filesystem metadata the locator reads.
//!
//! The locator only ever asks one question of the filesystem: "is there
//! a regular file at this path?". A probe failure (absent path, permission
//! error, broken link) is indistinguishable from "no": such paths simply
//! have no entry in the snapshot.

use vstd::prelude::*;

verus! {

/// What a metadata probe reported about a path that exists.
#[derive(Clone, Copy, PartialEq, Eq, Structural, Debug)]
pub enum FileKind {
    /// A regular file.
    Regular,
    /// A directory.
    Directory,
    /// Anything else a probe can report (device, socket, ...).
    Other,
}

/// One probed path together with the kind the probe reported.
pub struct FsEntry {
    pub path: String,
    pub kind: FileKind,
}

/// A read-only snapshot of filesystem metadata: the paths known to
/// exist, each with its kind. Paths that are absent, or whose probe
/// failed, have no entry.
pub struct FsSnapshot {
    pub entries: Vec<FsEntry>,
}

impl FsEntry {
    /// This entry records a regular file at `path`.
    pub open spec fn is_regular_file_at(self, path: Seq<char>) -> bool {
        self.path@ == path && self.kind == FileKind::Regular
    }
}

impl FsSnapshot {
    /// The snapshot holds a regular file at `path`.
    pub open spec fn has_regular_file(self, path: Seq<char>) -> bool {
        exists|i: int| 0 <= i < self.entries@.len() && self.entries@[i].is_regular_file_at(path)
    }

    /// Probe the snapshot: is there a regular file at `path`?
    pub fn contains_regular_file(&self, path: &String) -> (found: bool)
        ensures
            found == self.has_regular_file(path@),
    {
        let n: usize = self.entries.len();
        let mut i: usize = 0;
        while i < n
            invariant
                n == self.entries@.len(),
                i <= n,
                forall|j: int| 0 <= j < i ==> !self.entries@[j].is_regular_file_at(path@),
            decreases n - i,
        {
            let e = &self.entries[i];
            if e.kind == FileKind::Regular && e.path == *path {
                assert(self.entries@[i as int].is_regular_file_at(path@));
                return true;
            }
            i += 1;
        }
        false
    }
}

} // verus!
