//! Stored turns.

use vstd::prelude::*;
use vstd::string::*;

use crate::ai::domain::Turn;
use crate::id;
use crate::id::{ChatId, TurnId};
use crate::numeral;
use crate::persistence::error::{PersistenceError, PersistenceErrorView};
use crate::store::sql;
use crate::store::sql::{SqlCode, SqlFailure};
use crate::text;
use crate::time;

verus! {

/// A turn as it is stored.
#[derive(Debug, Clone, PartialEq, Eq)]
pub struct TurnRow {
    pub id: String,
    pub chat_id: String,
    pub parent_turn_id: Option<String>,
    /// The encoded role.
    pub kind: String,
    /// The whole turn, encoded.
    pub payload_json: String,
    pub created_at: i64,
}

/// The stored text of an optional parent.
pub open spec fn parent_text(parent: Option<TurnId>) -> Option<Seq<char>> {
    match parent {
        Some(p) => Some(id::uuid_text(p.0)),
        None => None,
    }
}

impl TurnRow {
    /// Whether this is how `turn` is stored below a chat and a parent, with the
    /// given encodings.
    pub open spec fn stores(
        self,
        chat_id: ChatId,
        parent: Option<TurnId>,
        turn: Turn,
        kind: String,
        payload: String,
    ) -> bool {
        &&& self.id@ == id::uuid_text(turn.id.0)
        &&& self.chat_id@ == id::uuid_text(chat_id.0)
        &&& text::optional(self.parent_turn_id) == parent_text(parent)
        &&& self.kind == kind
        &&& self.payload_json == payload
        &&& self.created_at == turn.created_at.secs()
    }

    /// How `turn` is stored, given how encoding its role and the turn itself
    /// went. The role comes first.
    pub fn from_turn(
        chat_id: ChatId,
        parent_turn_id: Option<TurnId>,
        turn: &Turn,
        kind: Result<String, String>,
        payload: Result<String, String>,
    ) -> (res: Result<Self, PersistenceError>)
        ensures
            match (kind, payload) {
                (Err(err), _) => res matches Err(e) && e@ == PersistenceErrorView::IoError(err@),
                (Ok(_), Err(err)) => res matches Err(e) && e@ == PersistenceErrorView::IoError(
                    err@,
                ),
                (Ok(k), Ok(p)) => res matches Ok(row) && row.stores(
                    chat_id,
                    parent_turn_id,
                    *turn,
                    k,
                    p,
                ) && time::instant_exists(row.created_at as int, 0),
            },
    {
        let kind = match kind {
            Ok(k) => k,
            Err(err) => {
                return Err(PersistenceError::IoError(err));
            },
        };
        let payload_json = match payload {
            Ok(p) => p,
            Err(err) => {
                return Err(PersistenceError::IoError(err));
            },
        };
        let parent = match parent_turn_id {
            Some(p) => Some(sql::id_to_string(p.0)),
            None => None,
        };
        Ok(
            Self {
                id: sql::id_to_string(turn.id.0),
                chat_id: sql::id_to_string(chat_id.0),
                parent_turn_id: parent,
                kind,
                payload_json,
                created_at: turn.created_at.timestamp(),
            },
        )
    }
}

/// Whether `turn` is what a row is read as whose payload decodes to `decoded`.
pub open spec fn reads(id: Seq<char>, decoded: Turn, created_at: i64, turn: Turn) -> bool {
    &&& turn.id.0 == sql::uuid_or_nil(id)
    &&& turn.created_at.secs() == created_at
    &&& turn.created_at.nanos() == 0
    &&& turn.role == decoded.role
    &&& turn.parts == decoded.parts
    &&& turn.model == decoded.model
}

/// The turn of a row: what its payload decodes to, with the identity and the
/// second of the row's own columns. Or what is wrong with the row.
pub fn turn_from_parts(id: &str, decoded: Turn, created_at: i64) -> (res: Result<Turn, String>)
    ensures
        match res {
            Ok(turn) => time::instant_exists(created_at as int, 0) && reads(
                id@,
                decoded,
                created_at,
                turn,
            ),
            Err(message) => !time::instant_exists(created_at as int, 0) && message@
                == "invalid timestamp: "@ + numeral::signed_decimal(created_at as int),
        },
{
    match sql::ts_to_datetime(created_at) {
        Err(message) => Err(message),
        Ok(at) => Ok(
            Turn::new(
                TurnId::from_uuid(sql::read_uuid_or_nil(id)),
                decoded.role,
                decoded.parts,
                at,
                decoded.model,
            ),
        ),
    }
}

/// A stored turn whose payload decodes to itself is read back, to the second.
pub proof fn law_turn_reads_back(
    chat_id: ChatId,
    parent: Option<TurnId>,
    turn: Turn,
    kind: String,
    payload: String,
    row: TurnRow,
    back: Turn,
)
    requires
        row.stores(chat_id, parent, turn, kind, payload),
        reads(row.id@, turn, row.created_at, back),
    ensures
        back.id == turn.id,
        back.created_at.secs() == turn.created_at.secs(),
        back.role == turn.role,
        back.parts == turn.parts,
        back.model == turn.model,
        turn.created_at.nanos() == 0 ==> back == turn,
{
    sql::law_stored_uuid_reads_back(turn.id.0);
    if turn.created_at.nanos() == 0 {
        time::lemma_same_instant(back.created_at, turn.created_at);
    }
}

// ---------------------------------------------------------------------------
// Appending
// ---------------------------------------------------------------------------

/// The place of a new turn in its chat, behind the highest one so far; none where
/// there is no number left.
pub open spec fn place_behind(highest: Option<i64>) -> Option<i64> {
    match highest {
        None => Some(1),
        Some(n) => if n < i64::MAX {
            Some((n + 1) as i64)
        } else {
            None
        },
    }
}

/// The place of a new turn in its chat, behind the highest one so far.
pub fn next_sequence(highest: Option<i64>) -> (res: Result<i64, String>)
    ensures
        match res {
            Ok(n) => place_behind(highest) == Some(n),
            Err(message) => place_behind(highest) is None && message@
                == "no sequence number is left"@,
        },
{
    match highest {
        None => Ok(1),
        Some(n) => {
            if n < i64::MAX {
                Ok(n + 1)
            } else {
                Err("no sequence number is left".to_owned())
            }
        },
    }
}

/// A turn in its table.
pub struct StoredTurn {
    pub row: TurnRow,
    pub sequence: i64,
}

/// What appending sees of the database: the known chats, and the turns in the
/// order in which they were inserted.
pub struct ModelTurns {
    pub chats: Set<Seq<char>>,
    pub turns: Seq<StoredTurn>,
}

/// The highest place in a chat, if it has turns.
pub open spec fn highest_place(turns: Seq<StoredTurn>, chat: Seq<char>) -> Option<i64>
    decreases turns.len(),
{
    if turns.len() == 0 {
        None
    } else {
        let before = highest_place(turns.drop_last(), chat);
        let last = turns.last();
        if last.row.chat_id@ != chat {
            before
        } else if before matches Some(n) && n > last.sequence {
            before
        } else {
            Some(last.sequence)
        }
    }
}

/// `list`, which ascends by place, with `turn` put where it belongs.
pub open spec fn placed(list: Seq<StoredTurn>, turn: StoredTurn) -> Seq<StoredTurn>
    decreases list.len(),
{
    if list.len() == 0 || list.last().sequence <= turn.sequence {
        list.push(turn)
    } else {
        placed(list.drop_last(), turn).push(list.last())
    }
}

/// The turns of a chat, ascending by place.
pub open spec fn listed(turns: Seq<StoredTurn>, chat: Seq<char>) -> Seq<StoredTurn>
    decreases turns.len(),
{
    if turns.len() == 0 {
        Seq::empty()
    } else if turns.last().row.chat_id@ == chat {
        placed(listed(turns.drop_last(), chat), turns.last())
    } else {
        listed(turns.drop_last(), chat)
    }
}

/// The turn of an identity, if it is there.
pub open spec fn found(turns: Seq<StoredTurn>, id: Seq<char>) -> Option<TurnRow>
    decreases turns.len(),
{
    if turns.len() == 0 {
        None
    } else if turns.last().row.id@ == id {
        Some(turns.last().row)
    } else {
        found(turns.drop_last(), id)
    }
}

impl ModelTurns {
    /// Whether the schema lets `row` in: its chat is known, its parent, if it has
    /// one, is a known turn, and its identity is new.
    pub open spec fn admits(self, row: TurnRow) -> bool {
        &&& self.chats.contains(row.chat_id@)
        &&& row.parent_turn_id matches Some(parent) ==> found(self.turns, parent@) is Some
        &&& found(self.turns, row.id@) is None
    }

    /// The database after `row` is appended, and how that goes. What is refused is
    /// rolled back.
    pub open spec fn appended(self, row: TurnRow) -> (ModelTurns, Result<(), SqlCode>) {
        match place_behind(highest_place(self.turns, row.chat_id@)) {
            None => (self, Err(SqlCode::Other)),
            Some(sequence) => if self.admits(row) {
                (
                    ModelTurns {
                        turns: self.turns.push(StoredTurn { row, sequence }),
                        ..self
                    },
                    Ok(()),
                )
            } else {
                (self, Err(SqlCode::Constraint))
            },
        }
    }
}

proof fn lemma_placed_members(list: Seq<StoredTurn>, turn: StoredTurn, bound: int)
    requires
        turn.sequence <= bound,
        forall|i: int| 0 <= i < list.len() ==> (#[trigger] list[i]).sequence <= bound,
    ensures
        forall|i: int|
            0 <= i < placed(list, turn).len() ==> (#[trigger] placed(list, turn)[i]).sequence
                <= bound,
    decreases list.len(),
{
    if !(list.len() == 0 || list.last().sequence <= turn.sequence) {
        lemma_placed_members(list.drop_last(), turn, bound);
    }
}

proof fn lemma_listed_up_to_highest(turns: Seq<StoredTurn>, chat: Seq<char>)
    ensures
        match highest_place(turns, chat) {
            None => listed(turns, chat).len() == 0,
            Some(n) => forall|i: int|
                0 <= i < listed(turns, chat).len() ==> (#[trigger] listed(turns, chat)[i]).sequence
                    <= n,
        },
    decreases turns.len(),
{
    if turns.len() > 0 {
        lemma_listed_up_to_highest(turns.drop_last(), chat);
        if turns.last().row.chat_id@ == chat {
            lemma_placed_members(
                listed(turns.drop_last(), chat),
                turns.last(),
                highest_place(turns, chat)->0 as int,
            );
        }
    }
}

/// A turn that is let in comes last in its chat and is found by its identity. The
/// other chats and the other turns stay as they were.
pub proof fn law_append_comes_last(db: ModelTurns, row: TurnRow, other: Seq<char>)
    requires
        db.appended(row).1 is Ok,
    ensures
        ({
            let after = db.appended(row).0;
            let before = listed(db.turns, row.chat_id@);
            &&& listed(after.turns, row.chat_id@).len() == before.len() + 1
            &&& listed(after.turns, row.chat_id@).drop_last() == before
            &&& listed(after.turns, row.chat_id@).last().row == row
            &&& found(after.turns, row.id@) == Some(row)
            &&& other != row.chat_id@ ==> listed(after.turns, other) == listed(db.turns, other)
            &&& other != row.id@ ==> found(after.turns, other) == found(db.turns, other)
        }),
{
    let after = db.appended(row).0;
    let before = listed(db.turns, row.chat_id@);
    lemma_listed_up_to_highest(db.turns, row.chat_id@);
    assert(after.turns.drop_last() =~= db.turns);
    if before.len() > 0 {
        assert(before.last() == before[before.len() - 1]);
    }
    assert(before.push(after.turns.last()).drop_last() =~= before);
}

/// A turn made in a whole second that is let in is read back as it was, both by its
/// identity and as the last one of its chat, if its payload decodes to itself.
pub proof fn law_appended_turn_reads_back(
    db: ModelTurns,
    chat_id: ChatId,
    parent: Option<TurnId>,
    turn: Turn,
    kind: String,
    payload: String,
    row: TurnRow,
    back: Turn,
)
    requires
        row.stores(chat_id, parent, turn, kind, payload),
        turn.created_at.nanos() == 0,
        db.appended(row).1 is Ok,
        ({
            let found_row = found(db.appended(row).0.turns, id::uuid_text(turn.id.0))->0;
            let last_row = listed(db.appended(row).0.turns, id::uuid_text(chat_id.0)).last().row;
            reads(found_row.id@, turn, found_row.created_at, back) || reads(
                last_row.id@,
                turn,
                last_row.created_at,
                back,
            )
        }),
    ensures
        found(db.appended(row).0.turns, id::uuid_text(turn.id.0)) is Some,
        back == turn,
{
    law_append_comes_last(db, row, row.chat_id@);
    law_turn_reads_back(chat_id, parent, turn, kind, payload, row, back);
}

/// A turn of an unknown chat, below an unknown parent or of a known identity is a
/// conflicting write, and nothing is added. A turn is let in where there is a
/// number left and none of these holds.
pub proof fn law_append_is_let_in_or_refused(
    db: ModelTurns,
    row: TurnRow,
    detail: Option<String>,
    text: String,
)
    requires
        place_behind(highest_place(db.turns, row.chat_id@)) is Some,
    ensures
        db.appended(row).1 is Ok <==> db.admits(row),
        !db.admits(row) ==> {
            &&& db.appended(row).0 == db
            &&& db.appended(row).1 matches Err(code) && (SqlFailure::Sqlite {
                code,
                detail,
                text,
            }).reported() is ConflictingWrite
        },
{
}

/// The limit of a search, as SQLite takes it.
pub fn search_limit(limit: usize) -> (res: i64)
    ensures
        res == if limit <= i64::MAX {
            limit as int
        } else {
            i64::MAX as int
        },
{
    if limit as u128 <= i64::MAX as u128 {
        limit as i64
    } else {
        i64::MAX
    }
}

/// A column of a search hit that holds no UUID.
#[derive(Debug, Clone, Copy, PartialEq, Eq, Structural)]
pub enum BadColumn {
    /// The turn.
    TurnId,
    /// The chat.
    ChatId,
}

/// The turn and the chat of a search hit, or the first column that holds no
/// UUID.
pub fn search_hit_from_parts(turn_id: &str, chat_id: &str) -> (res: Result<
    (TurnId, ChatId),
    BadColumn,
>)
    ensures
        match (id::uuid_from(turn_id@), id::uuid_from(chat_id@)) {
            (None, _) => res == Err::<(TurnId, ChatId), BadColumn>(BadColumn::TurnId),
            (Some(_), None) => res == Err::<(TurnId, ChatId), BadColumn>(BadColumn::ChatId),
            (Some(t), Some(c)) => res matches Ok(hit) && hit.0.0 == t && hit.1.0 == c,
        },
{
    match id::read_uuid(turn_id) {
        None => Err(BadColumn::TurnId),
        Some(turn) => match id::read_uuid(chat_id) {
            None => Err(BadColumn::ChatId),
            Some(chat) => Ok((TurnId::from_uuid(turn), ChatId::from_uuid(chat))),
        },
    }
}

} // verus!
