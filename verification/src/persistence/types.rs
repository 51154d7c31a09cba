//! Records of sessions, attachments and permission grants.

use vstd::prelude::*;

use crate::id::{AttachmentId, ChatId, PermissionGrantId, SessionId, TurnId, WorkspaceId};
use crate::time::Timestamp;

verus! {

/// What a session is for.
#[derive(Debug, Clone, Copy, PartialEq, Eq, Hash, Structural)]
pub enum SessionMode {
    /// A shell.
    Terminal,
    /// A conversation.
    Chat,
    /// A text editor.
    Editor,
}

/// A bounded interaction inside a workspace.
#[derive(Debug, Clone, PartialEq, Eq)]
#[non_exhaustive]
pub struct Session {
    /// Stable identity.
    pub id: SessionId,
    /// The workspace that it belongs to.
    pub workspace_id: WorkspaceId,
    /// What it is for.
    pub mode: SessionMode,
    /// Its title, once it has one.
    pub title: Option<String>,
    /// When it was made.
    pub created_at: Timestamp,
    /// When it last changed.
    pub updated_at: Timestamp,
}

impl Session {
    /// A session with the given fields.
    #[must_use]
    pub fn new(
        id: SessionId,
        workspace_id: WorkspaceId,
        mode: SessionMode,
        title: Option<String>,
        created_at: Timestamp,
        updated_at: Timestamp,
    ) -> (res: Self)
        ensures
            res == (Session { id, workspace_id, mode, title, created_at, updated_at }),
    {
        Self { id, workspace_id, mode, title, created_at, updated_at }
    }
}

/// What is known of a stored blob.
#[derive(Debug, Clone, PartialEq, Eq)]
#[non_exhaustive]
pub struct Attachment {
    /// Stable identity, independent of the content.
    pub id: AttachmentId,
    /// The chat that it belongs to.
    pub chat_id: ChatId,
    /// The turn that it belongs to, if it belongs to one.
    pub turn_id: Option<TurnId>,
    /// The file name that it is shown under.
    pub filename: String,
    /// Its media type.
    pub mime_type: String,
    /// Its size in bytes.
    pub size_bytes: u64,
    /// The key of its content.
    pub content_hash: String,
    /// When it was stored.
    pub created_at: Timestamp,
}

impl Attachment {
    /// A record with the given fields.
    #[must_use]
    pub fn new(
        id: AttachmentId,
        chat_id: ChatId,
        turn_id: Option<TurnId>,
        filename: String,
        mime_type: String,
        size_bytes: u64,
        content_hash: String,
        created_at: Timestamp,
    ) -> (res: Self)
        ensures
            res == (Attachment {
                id,
                chat_id,
                turn_id,
                filename,
                mime_type,
                size_bytes,
                content_hash,
                created_at,
            }),
    {
        Self {
            id,
            chat_id,
            turn_id,
            filename,
            mime_type,
            size_bytes,
            content_hash,
            created_at,
        }
    }
}

/// How far a permission grant reaches.
#[derive(Debug, Clone, Copy, PartialEq, Eq, Hash, Structural)]
pub enum PermissionScope {
    /// One tool call.
    SingleCall,
    /// The session, until it ends.
    Session,
    /// The workspace, until the grant is revoked.
    Workspace,
}

/// What the user decided.
#[derive(Debug, Clone, Copy, PartialEq, Eq, Hash, Structural)]
pub enum PermissionDecision {
    /// Matching tool calls are allowed.
    Allow,
    /// Matching tool calls are denied.
    Deny,
}

/// A decision of the user about a tool.
#[derive(Debug, Clone, PartialEq, Eq)]
#[non_exhaustive]
pub struct PermissionGrant {
    /// Stable identity.
    pub id: PermissionGrantId,
    /// The workspace that it holds in.
    pub workspace_id: WorkspaceId,
    /// The session that it was made in, if it was made in one.
    pub session_id: Option<SessionId>,
    /// The tool.
    pub tool_id: String,
    /// How far it reaches.
    pub scope: PermissionScope,
    /// What was decided.
    pub decision: PermissionDecision,
    /// A note for the audit log.
    pub note: Option<String>,
    /// When it was made.
    pub created_at: Timestamp,
}

impl PermissionGrant {
    /// A grant with the given fields.
    #[must_use]
    pub fn new(
        id: PermissionGrantId,
        workspace_id: WorkspaceId,
        session_id: Option<SessionId>,
        tool_id: String,
        scope: PermissionScope,
        decision: PermissionDecision,
        note: Option<String>,
        created_at: Timestamp,
    ) -> (res: Self)
        ensures
            res == (PermissionGrant {
                id,
                workspace_id,
                session_id,
                tool_id,
                scope,
                decision,
                note,
                created_at,
            }),
    {
        Self { id, workspace_id, session_id, tool_id, scope, decision, note, created_at }
    }
}

} // verus!
