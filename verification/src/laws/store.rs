//! What holds of stored records, and of how the stores fail.

use vstd::prelude::*;
use vstd::string::*;

use crate::ai::domain::{Conversation, Turn};
use crate::id;
use crate::id::{ChatId, PermissionGrantId, TurnId, WorkspaceId};
use crate::path;
use crate::persistence::error::PersistenceError;
use crate::persistence::types::{
    Attachment, PermissionDecision, PermissionGrant, PermissionScope, Session, SessionMode,
};
use crate::store::attachment;
use crate::store::attachment::AttachmentRow;
use crate::store::chat;
use crate::store::chat::{ChatRow, HeadTurnStep, SetHeadTurn};
use crate::store::permission;
use crate::store::permission::PermissionGrantRow;
use crate::store::session;
use crate::store::session::SessionRow;
use crate::store::sql;
use crate::store::sql::{RetryStep, SqlCode, SqlFailure, WriteRetry};
use crate::store::turn;
use crate::store::turn::{BadColumn, TurnRow};
use crate::store::workspace;
use crate::store::workspace::WorkspaceRow;
use crate::text;
use crate::time::{Duration, Timestamp};
use crate::workspace::{Workspace, WorkspaceRef};

verus! {

// ---------------------------------------------------------------------------
// Failures
// ---------------------------------------------------------------------------

/// Only a busy database and a locked table are worth another try, and these are reported as
/// a locked database. A violated constraint is a conflicting write; anything else that
/// SQLite fails with is an input or output error. SQLite's own words are passed on, and the
/// rendered failure where it has none.
pub proof fn law_sqlite_failures_are_reported(
    code: SqlCode,
    detail: Option<String>,
    rendered: String,
    busy: bool,
    res: PersistenceError,
)
    requires
        call_ensures(
            sql::is_busy,
            (&SqlFailure::Sqlite { code, detail, text: rendered },),
            busy,
        ),
        call_ensures(
            sql::map_sql_error,
            (SqlFailure::Sqlite { code, detail, text: rendered },),
            res,
        ),
    ensures
        busy <==> code is Busy || code is Locked,
        res is DatabaseLocked <==> busy,
        res is ConflictingWrite <==> code is Constraint,
        res is IoError <==> code is Other,
        ({
            let said = match detail {
                Some(d) => d@,
                None => rendered@,
            };
            match res {
                PersistenceError::DatabaseLocked(m) => m@ == said,
                PersistenceError::ConflictingWrite(m) => m@ == said,
                PersistenceError::IoError(m) => m@ == said,
                _ => false,
            }
        }),
{
}

/// A failure that does not come from SQLite is not worth another try; unless it is a refusal
/// of the store's own it is an input or output error.
pub proof fn law_other_failures_are_not_retried(
    failure: SqlFailure,
    busy: bool,
    res: PersistenceError,
    shown: &str,
)
    requires
        !(failure is Sqlite),
        call_ensures(sql::is_busy, (&failure,), busy),
        call_ensures(sql::map_sql_error, (failure,), res),
        call_ensures(SqlFailure::describe, (&failure,), shown),
    ensures
        !busy,
        failure is Other ==> (res matches PersistenceError::IoError(m) && m@ == shown@),
        !(res is DatabaseLocked),
{
}

/// What a store refuses because something is missing, or because it contradicts what is
/// stored, comes out as just that, with the store's own words.
pub proof fn law_refusals_come_out_as_they_went_in(
    what: &str,
    missing: String,
    conflicting: String,
    rendered: String,
    first: PersistenceError,
    second: PersistenceError,
)
    requires
        call_ensures(sql::not_found, (what,), missing),
        call_ensures(sql::conflict, (what,), conflicting),
        !text::begins(what@, "not found: "@),
        !text::begins(what@, "conflict: "@),
        call_ensures(
            sql::map_sql_error,
            (SqlFailure::Refused { message: missing, text: rendered },),
            first,
        ),
        call_ensures(
            sql::map_sql_error,
            (SqlFailure::Refused { message: conflicting, text: rendered },),
            second,
        ),
    ensures
        first matches PersistenceError::NotFound(m) && m@ == what@,
        second matches PersistenceError::ConflictingWrite(m) && m@ == what@,
{
    sql::law_not_found_is_reported(SqlFailure::Refused { message: missing, text: rendered }, what@);
    sql::law_conflict_is_reported(
        SqlFailure::Refused { message: conflicting, text: rendered },
        what@,
    );
}

/// A deletion that removed nothing is refused as not found, by the record's kind and
/// identity. One that removed something succeeds.
pub proof fn law_deleting_nothing_is_not_found(
    kind: &str,
    record: &str,
    changed: usize,
    res: Result<(), String>,
    missing: String,
)
    requires
        call_ensures(sql::deleted, (kind, record, changed), res),
        call_ensures(sql::missing, (kind, record), missing),
    ensures
        res is Ok <==> changed != 0,
        res matches Err(message) ==> message@ == missing@,
        missing@ == "not found: "@ + (kind@ + "/"@ + record@),
{
}

/// A write is tried again only while the database is busy and less than five seconds have
/// gone by. The first pause is ten milliseconds; each pause is twice the one before, up to a
/// quarter of a second. Whoever gives up reports the failure.
pub proof fn law_busy_writes_are_retried(
    retry: &mut WriteRetry,
    failure: SqlFailure,
    elapsed: Duration,
    res: RetryStep,
    fresh: WriteRetry,
    busy: bool,
    error: PersistenceError,
)
    requires
        call_ensures(WriteRetry::new, (), fresh),
        call_ensures(WriteRetry::after_failure, (retry, failure, elapsed), res),
        call_ensures(sql::is_busy, (&failure,), busy),
        call_ensures(sql::map_sql_error, (failure,), error),
    ensures
        fresh.next_pause() == 10,
        res is PauseMillis <==> busy && elapsed.nanos < 5_000_000_000,
        res matches RetryStep::PauseMillis(millis) ==> {
            &&& millis == old(retry).next_pause()
            &&& old(retry).next_pause() <= 125 ==> final(retry).next_pause() == 2 * millis
            &&& old(retry).next_pause() >= 125 ==> final(retry).next_pause() == 250
        },
        res matches RetryStep::GiveUp(e) ==> e@ == error@,
{
}

// ---------------------------------------------------------------------------
// Columns
// ---------------------------------------------------------------------------

/// A UUID is read back from what it is stored as. Text that writes no UUID counts as the
/// zero one.
pub proof fn law_uuid_columns(uuid: u128, stored: String, other: &str, read: u128)
    requires
        call_ensures(sql::id_to_string, (uuid,), stored),
        call_ensures(sql::read_uuid_or_nil, (other,), read),
    ensures
        other@ == stored@ ==> read == uuid,
        id::uuid_from(other@) is None ==> read == 0,
        id::uuid_from(other@) matches Some(n) ==> read == n as u128,
        stored@.len() == 36,
{
    sql::law_stored_uuid_reads_back(uuid);
    id::lemma_uuid_text_form(uuid, ';');
    id::law_uuid_text_reads_back(uuid);
}

/// A title is read back from what it is stored as; no title and an empty one are both none.
pub proof fn law_title_columns(title: Option<String>, stored: String, read: Option<String>)
    requires
        call_ensures(sql::write_title, (&title,), stored),
        call_ensures(sql::read_title, (stored,), read),
    ensures
        title matches Some(t) && t@.len() > 0 ==> read == title,
        title is None ==> read is None,
        title matches Some(t) && t@.len() == 0 ==> read is None,
{
}

/// A stored second is that instant, without a fraction. A second that no calendar has is an
/// error.
pub proof fn law_time_columns(ts: i64, res: Result<Timestamp, String>)
    requires
        call_ensures(sql::ts_to_datetime, (ts,), res),
    ensures
        res matches Ok(t) ==> t.secs() == ts && t.nanos() == 0,
        0 <= ts <= 8_000_000_000_000 ==> res is Ok,
        ts == i64::MAX || ts == i64::MIN ==> res is Err,
{
}

// ---------------------------------------------------------------------------
// Sessions
// ---------------------------------------------------------------------------

/// Modes are stored as words, and words that are no mode are read as a chat.
pub proof fn law_modes_are_words(mode: SessionMode, word: &str, other: &str, read: SessionMode)
    requires
        call_ensures(session::mode_to_str, (mode,), word),
        call_ensures(session::mode_from_str, (other,), read),
    ensures
        mode is Terminal <==> word@ == "terminal"@,
        mode is Chat <==> word@ == "chat"@,
        mode is Editor <==> word@ == "editor"@,
        other@ == word@ ==> read == mode,
        read is Terminal ==> other@ == "terminal"@,
        read is Editor ==> other@ == "editor"@,
{
    session::law_mode_reads_back(mode);
    reveal_strlit("terminal");
    reveal_strlit("chat");
    reveal_strlit("editor");
    assert("terminal"@.len() == 8 && "chat"@.len() == 4 && "editor"@.len() == 6);
}

/// A stored session is read back, to the second, and reading it does not fail.
pub proof fn law_session_row_round_trip(
    session: Session,
    row: SessionRow,
    res: Result<Session, String>,
)
    requires
        call_ensures(SessionRow::from_session, (&session,), row),
        call_ensures(SessionRow::into_session, (row,), res),
    ensures
        res is Ok,
        res matches Ok(back) ==> {
            &&& back.id == session.id
            &&& back.workspace_id == session.workspace_id
            &&& back.mode == session.mode
            &&& back.created_at.secs() == session.created_at.secs()
            &&& back.updated_at.secs() == session.updated_at.secs()
        },
        res matches Ok(back) ==> match session.title {
            Some(t) => t@.len() > 0 ==> back.title == session.title,
            None => back.title is None,
        },
{
    if let Ok(back) = res {
        session::law_session_reads_back(session, row, back);
    }
}

// ---------------------------------------------------------------------------
// Chats
// ---------------------------------------------------------------------------

/// A stored chat is read back with its identity, its title and its prompt, and without its
/// turns. It belongs to its workspace, and changed last with its last turn; a chat without
/// turns changed when it was stored. It counts as made at the epoch.
pub proof fn law_chat_row_round_trip(
    workspace_id: WorkspaceId,
    chat: Conversation,
    now: i64,
    row: ChatRow,
    stored_id: &str,
    back: Conversation,
    owner: String,
)
    requires
        call_ensures(ChatRow::from_chat, (workspace_id, &chat, now), row),
        stored_id@ == row.id@,
        call_ensures(chat::chat_from_parts, (stored_id, row.title, row.system_prompt), back),
        call_ensures(sql::id_to_string, (workspace_id.0,), owner),
    ensures
        back.id == chat.id,
        back.system_prompt == chat.system_prompt,
        back.turns@.len() == 0,
        match chat.title {
            Some(t) => t@.len() > 0 ==> back.title == chat.title,
            None => back.title is None,
        },
        row.workspace_id@ == owner@,
        row.created_at == 0,
        chat.turns@.len() == 0 ==> row.updated_at == now,
        chat.turns@.len() > 0 ==> row.updated_at == chat.turns@[chat.turns@.len()
            - 1].created_at.secs(),
{
    sql::law_stored_uuid_reads_back(chat.id.0);
}

/// A search finds the query anywhere in a title.
pub proof fn law_search_looks_anywhere(query: &str, pattern: String)
    requires
        call_ensures(chat::search_pattern, (query,), pattern),
    ensures
        pattern@.len() == query@.len() + 2,
        pattern@[0] == '%',
        pattern@.last() == '%',
        pattern@.subrange(1, query@.len() as int + 1) == query@,
{
    reveal_strlit("%");
    assert(pattern@.subrange(1, query@.len() as int + 1) =~= query@);
}

/// The head turn of a chat is set only where the chat exists and owns the turn, and is
/// cleared only where the chat exists. Which turn to look up is the one that was asked for.
pub proof fn law_head_turn_is_checked(
    request: SetHeadTurn,
    chat_exists: bool,
    first: HeadTurnStep,
    turn: &str,
    owner: Option<String>,
    second: HeadTurnStep,
)
    requires
        call_ensures(SetHeadTurn::after_chat, (&request, chat_exists), first),
        call_ensures(SetHeadTurn::after_owner, (&request, turn, &owner), second),
    ensures
        first is Refuse <==> !chat_exists,
        first is Update <==> chat_exists && request.turn_id is None,
        first matches HeadTurnStep::LookUpOwner(t) ==> request.turn_id matches Some(asked) && t@
            == asked@,
        second is Update <==> (owner matches Some(o) && o@ == request.chat_id@),
        !(second is LookUpOwner),
        first matches HeadTurnStep::Refuse(m) ==> m@ == "not found: "@ + ("chat"@ + "/"@
            + request.chat_id@),
        second matches HeadTurnStep::Refuse(m) ==> m@ == if owner is None {
            "not found: "@ + ("turn"@ + "/"@ + turn@)
        } else {
            "conflict: "@ + ("turn"@ + "/"@ + turn@ + " belongs to another chat"@)
        },
{
}

// ---------------------------------------------------------------------------
// Turns
// ---------------------------------------------------------------------------

/// A stored turn whose payload decodes to itself is read back, to the second. It names its
/// chat and its parent. What cannot be encoded is not stored.
pub proof fn law_turn_row_round_trip(
    chat_id: ChatId,
    parent: Option<TurnId>,
    turn: Turn,
    kind: Result<String, String>,
    payload: Result<String, String>,
    res: Result<TurnRow, PersistenceError>,
    stored_id: &str,
    back: Result<Turn, String>,
    chat_column: String,
    parent_column: String,
)
    requires
        call_ensures(TurnRow::from_turn, (chat_id, parent, &turn, kind, payload), res),
        res matches Ok(row) ==> stored_id@ == row.id@ && call_ensures(
            turn::turn_from_parts,
            (stored_id, turn, row.created_at),
            back,
        ),
        call_ensures(sql::id_to_string, (chat_id.0,), chat_column),
        parent matches Some(p) ==> call_ensures(sql::id_to_string, (p.0,), parent_column),
    ensures
        res is Ok <==> kind is Ok && payload is Ok,
        res matches Ok(row) ==> {
            &&& row.chat_id@ == chat_column@
            &&& row.parent_turn_id is Some <==> parent is Some
            &&& row.parent_turn_id matches Some(p) ==> p@ == parent_column@
            &&& row.kind == kind->Ok_0
            &&& row.payload_json == payload->Ok_0
            &&& back is Ok
        },
        res is Ok && back is Ok ==> {
            let b = back->Ok_0;
            &&& b.id == turn.id
            &&& b.role == turn.role
            &&& b.parts == turn.parts
            &&& b.model == turn.model
            &&& b.created_at.secs() == turn.created_at.secs()
        },
{
    sql::law_stored_uuid_reads_back(turn.id.0);
}

/// A new turn comes right behind the highest place so far, and the first one of a chat is
/// number one.
pub proof fn law_new_turn_comes_next(highest: Option<i64>, res: Result<i64, String>)
    requires
        call_ensures(turn::next_sequence, (highest,), res),
    ensures
        highest is None ==> res == Ok::<i64, String>(1),
        highest matches Some(n) && n < i64::MAX ==> res is Ok,
        highest is Some && res is Ok ==> res->Ok_0 - highest->0 == 1,
        highest == Some(i64::MAX) ==> res is Err,
{
}

/// A limit is handed on as it is where it fits, and as the greatest number where it does
/// not.
pub proof fn law_search_limit_is_kept(limit: usize, res: i64)
    requires
        call_ensures(turn::search_limit, (limit,), res),
    ensures
        res <= limit,
        res < limit ==> res == i64::MAX,
{
}

/// A search hit has the identities that its columns write; the turn's column is looked at
/// first.
pub proof fn law_search_hits_have_both_identities(
    turn_id: TurnId,
    chat_id: ChatId,
    turn_column: &str,
    chat_column: &str,
    stored_turn: String,
    stored_chat: String,
    res: Result<(TurnId, ChatId), BadColumn>,
)
    requires
        call_ensures(sql::id_to_string, (turn_id.0,), stored_turn),
        call_ensures(sql::id_to_string, (chat_id.0,), stored_chat),
        call_ensures(turn::search_hit_from_parts, (turn_column, chat_column), res),
    ensures
        turn_column@ == stored_turn@ && chat_column@ == stored_chat@ ==> res == Ok::<
            (TurnId, ChatId),
            BadColumn,
        >((turn_id, chat_id)),
        id::uuid_from(turn_column@) is None ==> res == Err::<(TurnId, ChatId), BadColumn>(
            BadColumn::TurnId,
        ),
        turn_column@ == stored_turn@ && id::uuid_from(chat_column@) is None ==> res == Err::<
            (TurnId, ChatId),
            BadColumn,
        >(BadColumn::ChatId),
{
    id::law_uuid_text_reads_back(turn_id.0);
    id::law_uuid_text_reads_back(chat_id.0);
}

// ---------------------------------------------------------------------------
// Attachments
// ---------------------------------------------------------------------------

/// A stored record whose payload decodes to itself is read back, to the second. What cannot
/// be encoded is not stored.
pub proof fn law_attachment_row_round_trip(
    metadata: Attachment,
    encoded: Result<String, String>,
    res: Result<AttachmentRow, PersistenceError>,
    stored_id: &str,
    back: Result<Attachment, String>,
    turn_column: String,
)
    requires
        call_ensures(AttachmentRow::from_attachment, (&metadata, encoded), res),
        res matches Ok(row) ==> stored_id@ == row.id@ && call_ensures(
            attachment::attachment_from_parts,
            (stored_id, metadata, row.created_at),
            back,
        ),
        metadata.turn_id matches Some(t) ==> call_ensures(sql::id_to_string, (t.0,), turn_column),
    ensures
        res is Ok <==> encoded is Ok,
        res matches Ok(row) ==> {
            &&& row.mime == metadata.mime_type
            &&& row.kind == encoded->Ok_0
            &&& row.turn_id is Some <==> metadata.turn_id is Some
            &&& row.turn_id matches Some(t) ==> t@ == turn_column@
            &&& back is Ok
        },
        res is Ok && back is Ok ==> {
            let b = back->Ok_0;
            &&& b.id == metadata.id
            &&& b.chat_id == metadata.chat_id
            &&& b.turn_id == metadata.turn_id
            &&& b.filename == metadata.filename
            &&& b.mime_type == metadata.mime_type
            &&& b.size_bytes == metadata.size_bytes
            &&& b.content_hash == metadata.content_hash
            &&& b.created_at.secs() == metadata.created_at.secs()
        },
{
    sql::law_stored_uuid_reads_back(metadata.id.0);
}

/// The bytes that were found are handed out as they are; where none were found that is
/// reported.
pub proof fn law_attachment_bytes_or_not_found(
    record: &str,
    found: Option<Vec<u8>>,
    res: Result<Vec<u8>, String>,
    kind: &str,
    missing: String,
)
    requires
        call_ensures(attachment::bytes_or_refusal, (record, found), res),
        kind@ == "attachment"@,
        call_ensures(sql::missing, (kind, record), missing),
    ensures
        res is Ok <==> found is Some,
        res matches Ok(bytes) ==> found == Some(bytes),
        res matches Err(message) ==> message@ == missing@,
{
}

// ---------------------------------------------------------------------------
// Workspaces
// ---------------------------------------------------------------------------

/// A stored workspace is read back with its identity and its label, and with its root where
/// that is text. A handle of it has the same identity and label. It was opened and made when
/// it was stored.
pub proof fn law_workspace_row_round_trip(
    workspace: Workspace,
    now: i64,
    row: WorkspaceRow,
    stored_id: &str,
    back: Workspace,
    handle: WorkspaceRef,
)
    requires
        call_ensures(WorkspaceRow::from_workspace, (&workspace, now), row),
        stored_id@ == row.id@,
        call_ensures(
            workspace::workspace_from_parts,
            (stored_id, row.root_path, row.trust_mode),
            back,
        ),
        call_ensures(
            workspace::workspace_ref_from_parts,
            (stored_id, row.root_path, row.trust_mode),
            handle,
        ),
    ensures
        back.id == workspace.id,
        back.display_name == workspace.display_name,
        path::is_text(workspace.root) ==> back.root == workspace.root,
        handle.id == workspace.id,
        handle.display_name == workspace.display_name,
        row.last_opened_at == now,
        row.created_at == now,
{
    sql::law_stored_uuid_reads_back(workspace.id.0);
}

/// A workspace is deleted only where it owns no sessions, and its opening is recorded only
/// where it is stored.
pub proof fn law_workspace_checks(
    record: &str,
    owns_sessions: bool,
    exists: bool,
    deletion: Result<(), String>,
    opening: Result<(), String>,
    kind: &str,
    missing: String,
)
    requires
        call_ensures(workspace::before_delete, (record, owns_sessions), deletion),
        call_ensures(workspace::before_record_opened, (record, exists), opening),
        kind@ == "workspace"@,
        call_ensures(sql::missing, (kind, record), missing),
    ensures
        deletion is Err <==> owns_sessions,
        deletion matches Err(message) ==> message@ == "conflict: "@ + ("workspace"@ + "/"@ + record@
            + " owns sessions"@),
        opening is Ok <==> exists,
        opening matches Err(message) ==> message@ == missing@,
{
}

/// A limit of recent workspaces is handed on as it is; none stays none, and one that SQLite
/// cannot hold is refused.
pub proof fn law_recent_limit_is_kept(
    limit: Option<usize>,
    res: Result<Option<i64>, PersistenceError>,
)
    requires
        call_ensures(workspace::recent_limit, (limit,), res),
    ensures
        limit is None ==> res matches Ok(None),
        limit is Some && res is Ok ==> (res->Ok_0 matches Some(m) && m == limit->0),
        res is Err <==> (limit matches Some(n) && n > i64::MAX),
        res matches Err(e) ==> e is ConflictingWrite,
{
}

// ---------------------------------------------------------------------------
// Permission grants
// ---------------------------------------------------------------------------

/// A stored grant is read back, to the second, and reading it does not fail: a refusal is
/// read as a refusal, and reaches as far as it did.
pub proof fn law_grant_row_round_trip(
    grant: PermissionGrant,
    row: PermissionGrantRow,
    res: Result<PermissionGrant, String>,
)
    requires
        call_ensures(PermissionGrantRow::from_grant, (&grant,), row),
        call_ensures(PermissionGrantRow::into_grant, (row,), res),
    ensures
        res is Ok,
        res matches Ok(back) ==> {
            &&& back.id == grant.id
            &&& back.workspace_id == grant.workspace_id
            &&& back.session_id == grant.session_id
            &&& back.tool_id == grant.tool_id
            &&& back.scope == grant.scope
            &&& back.decision == grant.decision
            &&& text::optional(back.note) == text::optional(grant.note)
            &&& back.created_at.secs() == grant.created_at.secs()
        },
{
    permission::law_stored_grant_has_no_fault(grant, row);
    if let Ok(back) = res {
        permission::law_grant_reads_back(grant, row, back);
    }
}

/// A row that writes an identity alone is a permission for the whole workspace, from no
/// session and without a note.
pub proof fn law_bare_row_is_a_workspace_permission(
    row: PermissionGrantRow,
    res: Result<PermissionGrant, String>,
)
    requires
        !row.network_pattern@.contains(';'),
        call_ensures(PermissionGrantRow::into_grant, (row,), res),
    ensures
        res matches Ok(grant) ==> {
            &&& grant.decision == PermissionDecision::Allow
            &&& grant.scope == PermissionScope::Workspace
            &&& grant.session_id is None
            &&& grant.note is None
        },
{
    text::lemma_cut_first_absent(row.network_pattern@, ';');
}

/// A grant is looked up by its own identity: the keys find its row and no row of another
/// grant.
pub proof fn law_lookup_keys_find_their_grant(
    grant: PermissionGrant,
    row: PermissionGrantRow,
    sought: PermissionGrantId,
    keys: (String, String),
)
    requires
        call_ensures(PermissionGrantRow::from_grant, (&grant,), row),
        call_ensures(permission::lookup_keys, (sought,), keys),
    ensures
        ({
            let pattern = row.network_pattern@;
            let found = pattern == keys.0@ || text::begins(pattern, keys.1@);
            found <==> sought == grant.id
        }),
{
    permission::law_grant_is_found_by_its_identity(grant, row, sought.0);
    let pattern = row.network_pattern@;
    id::lemma_uuid_text_form(sought.0, ';');
}

/// What a row writes behind its identity is taken at its word: `deny` is a refusal and
/// `allow` a permission, and the reach is spelled out too. A row that writes anything else
/// there is an error, never a permission.
pub proof fn law_written_terms_are_taken_at_their_word(
    row: PermissionGrantRow,
    identity: Seq<char>,
    decision: Seq<char>,
    scope: Seq<char>,
    rest: Seq<char>,
    res: Result<PermissionGrant, String>,
)
    requires
        row.network_pattern@ == identity + seq![';'] + (decision + seq![';'] + (scope + seq![';']
            + rest)),
        !identity.contains(';'),
        !decision.contains(';'),
        !scope.contains(';'),
        call_ensures(PermissionGrantRow::into_grant, (row,), res),
    ensures
        res matches Ok(grant) ==> {
            &&& decision == "allow"@ || decision == "deny"@
            &&& grant.decision is Deny <==> decision == "deny"@
            &&& scope == "single_call"@ || scope == "session"@ || scope == "workspace"@
            &&& grant.scope is SingleCall <==> scope == "single_call"@
            &&& grant.scope is Session <==> scope == "session"@
        },
        decision != "allow"@ && decision != "deny"@ ==> res is Err,
        scope != "single_call"@ && scope != "session"@ && scope != "workspace"@ ==> res is Err,
{
    text::lemma_cut_first_joined(
        identity,
        ';',
        decision + seq![';'] + (scope + seq![';'] + rest),
    );
    text::lemma_cut_first_joined(decision, ';', scope + seq![';'] + rest);
    text::lemma_cut_first_joined(scope, ';', rest);
    reveal_strlit("allow");
    reveal_strlit("deny");
    reveal_strlit("single_call");
    reveal_strlit("session");
    reveal_strlit("workspace");
    assert("allow"@.len() == 5 && "deny"@.len() == 4);
    assert("single_call"@.len() == 11 && "session"@.len() == 7 && "workspace"@.len() == 9);
}

/// A message of the store's own that names neither reason is an input or output error with
/// the rendered failure. What is reported of a named reason no longer starts with it.
pub proof fn law_other_refusals_are_rendered(
    message: String,
    rendered: String,
    res: PersistenceError,
)
    requires
        call_ensures(sql::map_sql_error, (SqlFailure::Refused { message, text: rendered },), res),
    ensures
        !text::begins(message@, "not found:"@) && !text::begins(message@, "conflict:"@) ==> (
        res matches PersistenceError::IoError(m) && m@ == rendered@),
        res matches PersistenceError::NotFound(m) ==> !text::begins(m@, "not found: "@),
        res matches PersistenceError::ConflictingWrite(m) ==> !text::begins(m@, "conflict: "@),
        text::begins(message@, "not found:"@) ==> res is NotFound,
{
    reveal_strlit("not found: ");
    reveal_strlit("conflict: ");
    lemma_prefixes_are_gone(message@, "not found: "@);
    lemma_prefixes_are_gone(message@, "conflict: "@);
}

proof fn lemma_prefixes_are_gone(s: Seq<char>, prefix: Seq<char>)
    requires
        prefix.len() > 0,
    ensures
        !text::begins(sql::without_prefixes(s, prefix), prefix),
    decreases s.len(),
{
    if text::begins(s, prefix) {
        lemma_prefixes_are_gone(s.skip(prefix.len() as int), prefix);
    }
}

/// A session whose row does not say when it was made counts as made at the epoch, and can
/// still be read.
pub proof fn law_session_without_beginning(row: SessionRow, res: Result<Session, String>)
    requires
        call_ensures(SessionRow::into_session, (row,), res),
        row.layout_blob@.len() == 0,
    ensures
        res matches Ok(session) ==> session.created_at.secs() == 0 && session.created_at.nanos()
            == 0,
        0 <= row.updated_at <= 8_000_000_000_000 ==> res is Ok,
{
}

/// A row whose session is no UUID, or whose note does not start with `=`, is an error: it is
/// not read as a permission of wider reach, or without its note. A row with fields missing is
/// one too.
pub proof fn law_broken_terms_are_errors(
    row: PermissionGrantRow,
    identity: Seq<char>,
    decision: Seq<char>,
    scope: Seq<char>,
    session: Seq<char>,
    note: Seq<char>,
    short: PermissionGrantRow,
    res: Result<PermissionGrant, String>,
    short_res: Result<PermissionGrant, String>,
)
    requires
        row.network_pattern@ == identity + seq![';'] + (decision + seq![';'] + (scope + seq![';']
            + (session + seq![';'] + note))),
        short.network_pattern@ == identity + seq![';'] + decision,
        !identity.contains(';'),
        !decision.contains(';'),
        !scope.contains(';'),
        !session.contains(';'),
        call_ensures(PermissionGrantRow::into_grant, (row,), res),
        call_ensures(PermissionGrantRow::into_grant, (short,), short_res),
    ensures
        session.len() > 0 && id::uuid_from(session) is None ==> res is Err,
        note.len() > 0 && note[0] != '=' ==> res is Err,
        res matches Ok(grant) ==> {
            &&& grant.session_id is None <==> session.len() == 0
            &&& grant.note is None <==> note.len() == 0
            &&& grant.note matches Some(n) ==> note == seq!['='] + n@
        },
        short_res is Err,
{
    text::lemma_cut_first_joined(
        identity,
        ';',
        decision + seq![';'] + (scope + seq![';'] + (session + seq![';'] + note)),
    );
    text::lemma_cut_first_joined(
        decision,
        ';',
        scope + seq![';'] + (session + seq![';'] + note),
    );
    text::lemma_cut_first_joined(scope, ';', session + seq![';'] + note);
    text::lemma_cut_first_joined(session, ';', note);
    text::lemma_cut_first_joined(identity, ';', decision);
    text::lemma_cut_first_absent(decision, ';');
    if let Ok(grant) = res {
        if let Some(n) = grant.note {
            assert(note =~= seq!['='] + note.drop_first());
            assert(text::optional(grant.note) == Some(n@));
        }
    }
}

} // verus!
