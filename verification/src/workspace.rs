//! Workspaces: the on-disk roots that the user works in.

use std::path::PathBuf;

use vstd::prelude::*;

use crate::id::WorkspaceId;

verus! {

/// A workspace: its identity, its root directory and the label it is shown
/// under. The label need not match the directory's name.
#[derive(Debug, Clone, PartialEq, Eq)]
#[non_exhaustive]
pub struct Workspace {
    /// Stable identity; survives renames and moves.
    pub id: WorkspaceId,
    /// Path of the root directory.
    pub root: PathBuf,
    /// The label in the switcher and in the list of recent workspaces.
    pub display_name: String,
}

impl Workspace {
    /// A workspace with the given identity, root and label.
    #[must_use]
    pub fn new(id: WorkspaceId, root: PathBuf, display_name: String) -> (res: Self)
        ensures
            res.id == id,
            res.root == root,
            res.display_name == display_name,
    {
        Self { id, root, display_name }
    }

    /// The handle that lists pass around: the identity and the label.
    #[must_use]
    pub fn as_ref(&self) -> (res: WorkspaceRef)
        ensures
            res.id == self.id,
            res.display_name == self.display_name,
    {
        WorkspaceRef { id: self.id, display_name: self.display_name.clone() }
    }
}

/// A handle to a workspace for surfaces that only show its label.
#[derive(Debug, PartialEq, Eq)]
#[non_exhaustive]
pub struct WorkspaceRef {
    /// The workspace's identity.
    pub id: WorkspaceId,
    /// The label as it was when the handle was made.
    pub display_name: String,
}

impl Clone for WorkspaceRef {
    fn clone(&self) -> (res: Self)
        ensures
            res == *self,
    {
        WorkspaceRef { id: self.id, display_name: self.display_name.clone() }
    }
}

impl WorkspaceRef {
    /// A handle with the given identity and label.
    #[must_use]
    pub fn new(id: WorkspaceId, display_name: String) -> (res: Self)
        ensures
            res.id == id,
            res.display_name == display_name,
    {
        Self { id, display_name }
    }
}

} // verus!
