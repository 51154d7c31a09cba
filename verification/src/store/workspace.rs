//! Stored workspaces and the list of recent ones.

use vstd::prelude::*;
use vstd::string::*;

use crate::id;
use crate::id::WorkspaceId;
use crate::path;
use crate::persistence::error::{PersistenceError, PersistenceErrorView};
use crate::store::sql;
use crate::store::sql::SqlFailure;
use crate::text;
use crate::workspace::{Workspace, WorkspaceRef};

verus! {

/// A workspace as it is stored. The label stands in the column `trust_mode`.
#[derive(Debug, Clone, PartialEq, Eq)]
pub struct WorkspaceRow {
    pub id: String,
    pub root_path: String,
    pub last_opened_at: i64,
    pub trust_mode: String,
    pub created_at: i64,
}

impl WorkspaceRow {
    /// Whether this is how `workspace` is stored at the instant `now`.
    pub open spec fn stores(self, workspace: Workspace, now: i64) -> bool {
        &&& self.id@ == id::uuid_text(workspace.id.0)
        &&& self.root_path@ == path::shown(workspace.root)
        &&& self.trust_mode == workspace.display_name
        &&& self.last_opened_at == now
        &&& self.created_at == now
    }

    /// How `workspace` is stored at the instant `now`, in seconds since the Unix
    /// epoch.
    pub fn from_workspace(workspace: &Workspace, now: i64) -> (res: Self)
        ensures
            res.stores(*workspace, now),
    {
        Self {
            id: sql::id_to_string(workspace.id.0),
            root_path: path::show(&workspace.root),
            last_opened_at: now,
            trust_mode: workspace.display_name.clone(),
            created_at: now,
        }
    }
}

/// Whether `workspace` is what the given stored columns are read as.
pub open spec fn reads(
    id: Seq<char>,
    root_path: Seq<char>,
    display_name: String,
    workspace: Workspace,
) -> bool {
    &&& workspace.id.0 == sql::uuid_or_nil(id)
    &&& workspace.root == path::path_of(root_path)
    &&& path::shown(workspace.root) == root_path
    &&& workspace.display_name == display_name
}

/// The workspace with the given stored columns.
pub fn workspace_from_parts(id: &str, root_path: String, display_name: String) -> (res: Workspace)
    ensures
        reads(id@, root_path@, display_name, res),
{
    Workspace::new(
        WorkspaceId::from_uuid(sql::read_uuid_or_nil(id)),
        path::read_path(root_path),
        display_name,
    )
}

/// The handle of the workspace with the given stored columns.
pub fn workspace_ref_from_parts(id: &str, root_path: String, display_name: String) -> (res:
    WorkspaceRef)
    ensures
        res.id.0 == sql::uuid_or_nil(id@),
        res.display_name == display_name,
{
    workspace_from_parts(id, root_path, display_name).as_ref()
}

/// A stored workspace is read back with its identity and its label and a root that
/// is shown as the stored one was. A root that is text is read back as it was, and
/// so is the whole workspace.
pub proof fn law_workspace_reads_back(
    workspace: Workspace,
    row: WorkspaceRow,
    now: i64,
    back: Workspace,
)
    requires
        row.stores(workspace, now),
        reads(row.id@, row.root_path@, row.trust_mode, back),
    ensures
        back.id == workspace.id,
        back.display_name == workspace.display_name,
        path::shown(back.root) == path::shown(workspace.root),
        path::is_text(workspace.root) ==> back == workspace,
{
    sql::law_stored_uuid_reads_back(workspace.id.0);
}

/// The refusal to delete a workspace that owns sessions.
pub fn before_delete(id: &str, owns_sessions: bool) -> (res: Result<(), String>)
    ensures
        match res {
            Ok(_) => !owns_sessions,
            Err(message) => owns_sessions && message@ == "conflict: "@ + (sql::record_name(
                "workspace"@,
                id@,
            ) + " owns sessions"@),
        },
{
    if owns_sessions {
        let message = "workspace".to_owned().concat("/").concat(id).concat(" owns sessions");
        Err(sql::conflict(message.as_str()))
    } else {
        Ok(())
    }
}

/// A workspace that owns sessions is not deleted, and the caller is told of the
/// conflict.
pub proof fn law_owner_of_sessions_conflicts(failure: SqlFailure, id: Seq<char>)
    requires
        failure matches SqlFailure::Refused { message, .. } && message@ == "conflict: "@ + (
        sql::record_name("workspace"@, id) + " owns sessions"@),
    ensures
        failure.reported() == PersistenceErrorView::ConflictingWrite(
            sql::record_name("workspace"@, id) + " owns sessions"@,
        ),
{
    reveal_strlit("workspace");
    reveal_strlit("conflict: ");
    let what = sql::record_name("workspace"@, id) + " owns sessions"@;
    if text::begins(what, "conflict: "@) {
        assert(what.take(10)[0] == "conflict: "@[0]);
    }
    sql::law_conflict_is_reported(failure, what);
}

/// The refusal to record the opening of a workspace that is not stored.
pub fn before_record_opened(id: &str, exists: bool) -> (res: Result<(), String>)
    ensures
        match res {
            Ok(_) => exists,
            Err(message) => !exists && message@ == "not found: "@ + sql::record_name(
                "workspace"@,
                id@,
            ),
        },
{
    if exists {
        Ok(())
    } else {
        Err(sql::missing("workspace", id))
    }
}

/// The limit of a list of recent workspaces, as SQLite takes it.
pub fn recent_limit(limit: Option<usize>) -> (res: Result<Option<i64>, PersistenceError>)
    ensures
        match limit {
            None => res == Ok::<Option<i64>, PersistenceError>(None),
            Some(n) => if n <= i64::MAX {
                res == Ok::<Option<i64>, PersistenceError>(Some(n as i64))
            } else {
                res matches Err(e) && e@ == PersistenceErrorView::ConflictingWrite(
                    "recent workspace limit exceeds i64"@,
                )
            },
        },
{
    match limit {
        None => Ok(None),
        Some(n) => if n as u128 <= i64::MAX as u128 {
            Ok(Some(n as i64))
        } else {
            Err(
                PersistenceError::ConflictingWrite(
                    "recent workspace limit exceeds i64".to_owned(),
                ),
            )
        },
    }
}

} // verus!
