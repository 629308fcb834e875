//! What was found on disk for the repositories of the registry: the state
//! that the decisions of the library are taken on.

use crate::metadata::Metadata;
use crate::vault::VaultEntry;
use vstd::prelude::*;

verus! {

/// What was found on disk for one clone.
#[derive(Clone, Debug)]
pub struct CloneProbe {
    /// Whether the directory of the clone exists.
    pub exists: bool,
    /// The time of the head commit in seconds since the Unix epoch, where
    /// the directory holds a repository with such a commit.
    pub head_time: Option<i64>,
}

/// What was found on disk for one repository of the registry.
#[derive(Clone, Debug)]
pub struct RepoState {
    /// The entry of the registry.
    pub entry: VaultEntry,
    /// Whether the directory of the mirror exists.
    pub pristine_exists: bool,
    /// The metadata, where it could be read.
    pub metadata: Option<Metadata>,
    /// What was found for each clone of the metadata, in its order.
    pub clones: Vec<CloneProbe>,
}

impl RepoState {
    /// Whether the directory of the clone at position `i` was found.
    pub open spec fn clone_exists(self, i: int) -> bool {
        0 <= i < self.clones@.len() && self.clones@[i].exists
    }

    /// The time of the head commit of the clone at position `i`, where its
    /// directory was found with a repository and its head commit.
    pub open spec fn clone_head_time(self, i: int) -> Option<i64> {
        if self.clone_exists(i) {
            self.clones@[i].head_time
        } else {
            None
        }
    }

    /// Whether the directory of the clone at position `i` was found.
    pub fn probe_exists(&self, i: usize) -> (r: bool)
        ensures
            r == self.clone_exists(i as int),
    {
        i < self.clones.len() && self.clones[i].exists
    }

    /// The time of the head commit of the clone at position `i`.
    pub fn probe_head_time(&self, i: usize) -> (r: Option<i64>)
        ensures
            r == self.clone_head_time(i as int),
    {
        if i < self.clones.len() && self.clones[i].exists {
            self.clones[i].head_time
        } else {
            None
        }
    }
}

} // verus!
