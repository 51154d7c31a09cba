//! Stored sessions.

use vstd::prelude::*;

use crate::id;
use crate::id::{SessionId, WorkspaceId};
use crate::numeral;
use crate::persistence::types::{Session, SessionMode};
use crate::store::sql;
use crate::text;
use crate::time;
use crate::time::Timestamp;

verus! {

/// The text that a mode is stored as.
pub open spec fn mode_text(mode: SessionMode) -> Seq<char> {
    match mode {
        SessionMode::Terminal => "terminal"@,
        SessionMode::Chat => "chat"@,
        SessionMode::Editor => "editor"@,
    }
}

/// The mode that a stored text means; an unknown text means a chat.
pub open spec fn mode_of(s: Seq<char>) -> SessionMode {
    if s == "terminal"@ {
        SessionMode::Terminal
    } else if s == "editor"@ {
        SessionMode::Editor
    } else {
        SessionMode::Chat
    }
}

/// The text that a mode is stored as.
pub fn mode_to_str(mode: SessionMode) -> (res: &'static str)
    ensures
        res@ == mode_text(mode),
{
    match mode {
        SessionMode::Terminal => "terminal",
        SessionMode::Chat => "chat",
        SessionMode::Editor => "editor",
    }
}

/// Reads a stored mode.
pub fn mode_from_str(mode: &str) -> (res: SessionMode)
    ensures
        res == mode_of(mode@),
{
    if text::same_text(mode, "terminal") {
        SessionMode::Terminal
    } else if text::same_text(mode, "editor") {
        SessionMode::Editor
    } else {
        SessionMode::Chat
    }
}

/// A stored mode is read back.
pub proof fn law_mode_reads_back(mode: SessionMode)
    ensures
        mode_of(mode_text(mode)) == mode,
{
    reveal_strlit("terminal");
    reveal_strlit("chat");
    reveal_strlit("editor");
    assert("terminal"@.len() == 8 && "chat"@.len() == 4 && "editor"@.len() == 6);
}

/// The second that a session was made in, as the column `layout_blob` has it. One
/// without counts as made at the epoch.
pub open spec fn made_at(layout_blob: Seq<char>) -> int {
    match numeral::signed_value(layout_blob) {
        Some(n) => if i64::MIN <= n <= i64::MAX && time::instant_exists(n, 0) {
            n
        } else {
            0
        },
        None => 0,
    }
}

fn read_made_at(layout_blob: &str) -> (res: Timestamp)
    ensures
        res.secs() == made_at(layout_blob@),
        res.nanos() == 0,
{
    match numeral::parse_i64(layout_blob) {
        Ok(n) => match Timestamp::from_timestamp(n, 0) {
            Some(t) => t,
            None => Timestamp::unix_epoch(),
        },
        Err(_) => Timestamp::unix_epoch(),
    }
}

/// A session as it is stored. There is no column for when it was made, so that
/// stands in `layout_blob`, which is written when the session is first stored and
/// left alone from then on.
#[derive(Debug, Clone, PartialEq, Eq)]
pub struct SessionRow {
    pub id: String,
    pub workspace_id: String,
    pub title: String,
    pub mode: String,
    pub layout_blob: String,
    pub updated_at: i64,
}

impl SessionRow {
    /// Whether this is how `session` is stored.
    pub open spec fn stores(self, session: Session) -> bool {
        &&& self.id@ == id::uuid_text(session.id.0)
        &&& self.workspace_id@ == id::uuid_text(session.workspace_id.0)
        &&& match session.title {
            Some(t) => self.title == t,
            None => self.title@.len() == 0,
        }
        &&& self.mode@ == mode_text(session.mode)
        &&& self.layout_blob@ == numeral::signed_decimal(session.created_at.secs() as int)
        &&& self.updated_at == session.updated_at.secs()
    }

    /// How `session` is stored.
    pub fn from_session(session: &Session) -> (res: Self)
        ensures
            res.stores(*session),
            time::instant_exists(session.created_at.secs() as int, 0),
            time::instant_exists(res.updated_at as int, 0),
    {
        Self {
            id: sql::id_to_string(session.id.0),
            workspace_id: sql::id_to_string(session.workspace_id.0),
            title: sql::write_title(&session.title),
            mode: mode_to_str(session.mode).to_owned(),
            layout_blob: numeral::signed_decimal_text(session.created_at.timestamp()),
            updated_at: session.updated_at.timestamp(),
        }
    }

    /// Whether this row is read as `session`.
    pub open spec fn reads(self, session: Session) -> bool {
        &&& session.id.0 == sql::uuid_or_nil(self.id@)
        &&& session.workspace_id.0 == sql::uuid_or_nil(self.workspace_id@)
        &&& session.mode == mode_of(self.mode@)
        &&& session.title == sql::title_of(self.title)
        &&& session.created_at.secs() == made_at(self.layout_blob@)
        &&& session.created_at.nanos() == 0
        &&& session.updated_at.secs() == self.updated_at
        &&& session.updated_at.nanos() == 0
    }

    /// The session that is stored, or what is wrong with the row.
    pub fn into_session(self) -> (res: Result<Session, String>)
        ensures
            match res {
                Ok(session) => self.reads(session) && time::instant_exists(
                    self.updated_at as int,
                    0,
                ),
                Err(message) => !time::instant_exists(self.updated_at as int, 0) && message@
                    == "invalid timestamp: "@ + numeral::signed_decimal(self.updated_at as int),
            },
    {
        match sql::ts_to_datetime(self.updated_at) {
            Err(message) => Err(message),
            Ok(updated_at) => Ok(
                Session::new(
                    SessionId::from_uuid(sql::read_uuid_or_nil(self.id.as_str())),
                    WorkspaceId::from_uuid(sql::read_uuid_or_nil(self.workspace_id.as_str())),
                    mode_from_str(self.mode.as_str()),
                    sql::read_title(self.title),
                    read_made_at(self.layout_blob.as_str()),
                    updated_at,
                ),
            ),
        }
    }
}

/// A stored session is read back with its identity, workspace, mode and title,
/// and with the seconds that it was made and last changed in. Only an empty title
/// is lost.
pub proof fn law_session_reads_back(session: Session, row: SessionRow, back: Session)
    requires
        row.stores(session),
        row.reads(back),
        time::instant_exists(session.created_at.secs() as int, 0),
    ensures
        back.id == session.id,
        back.workspace_id == session.workspace_id,
        back.mode == session.mode,
        back.created_at.secs() == session.created_at.secs(),
        back.updated_at.secs() == session.updated_at.secs(),
        !(session.title matches Some(t) && t@.len() == 0) ==> back.title == session.title,
{
    sql::law_stored_uuid_reads_back(session.id.0);
    sql::law_stored_uuid_reads_back(session.workspace_id.0);
    law_mode_reads_back(session.mode);
    numeral::lemma_signed_reads_back(session.created_at.secs() as int);
}

/// The row that is left when `new` is stored where `before` may stand already:
/// everything but `layout_blob` is replaced.
pub open spec fn upserted(before: Option<SessionRow>, new: SessionRow) -> SessionRow {
    match before {
        Some(row) => SessionRow { layout_blob: row.layout_blob, ..new },
        None => new,
    }
}

/// When a session was made is fixed when it is first stored: storing it again,
/// with whatever beginning, does not move it.
pub proof fn law_beginning_is_locked(
    first: Session,
    first_row: SessionRow,
    again_row: SessionRow,
    back: Session,
)
    requires
        first_row.stores(first),
        time::instant_exists(first.created_at.secs() as int, 0),
        upserted(Some(upserted(None, first_row)), again_row).reads(back),
    ensures
        back.created_at.secs() == first.created_at.secs(),
{
    numeral::lemma_signed_reads_back(first.created_at.secs() as int);
}

} // verus!
