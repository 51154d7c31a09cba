//! Stored chats.

use vstd::prelude::*;
use vstd::string::*;

use crate::ai::domain::{Conversation, Turn};
use crate::id;
use crate::id::ChatId;
use crate::id::WorkspaceId;
use crate::persistence::error::PersistenceErrorView;
use crate::store::sql;
use crate::store::sql::SqlFailure;
use crate::text;

verus! {

/// A chat as it is stored, without its turns.
#[derive(Debug, Clone, PartialEq, Eq)]
pub struct ChatRow {
    pub id: String,
    pub workspace_id: String,
    pub title: String,
    pub system_prompt: Option<String>,
    pub created_at: i64,
    pub updated_at: i64,
}

impl ChatRow {
    /// Whether this is how `chat` is stored in a workspace at the instant `now`.
    /// A chat changes with its last turn.
    pub open spec fn stores(self, workspace_id: WorkspaceId, chat: Conversation, now: i64) -> bool {
        &&& self.id@ == id::uuid_text(chat.id.0)
        &&& self.workspace_id@ == id::uuid_text(workspace_id.0)
        &&& match chat.title {
            Some(t) => self.title == t,
            None => self.title@.len() == 0,
        }
        &&& self.system_prompt == chat.system_prompt
        &&& self.created_at == 0
        &&& self.updated_at == if chat.turns@.len() == 0 {
            now as int
        } else {
            chat.turns@.last().created_at.secs()
        }
    }

    /// How `chat` is stored in a workspace at the instant `now`, in seconds since
    /// the Unix epoch.
    pub fn from_chat(workspace_id: WorkspaceId, chat: &Conversation, now: i64) -> (res: Self)
        ensures
            res.stores(workspace_id, *chat, now),
    {
        let n: usize = chat.turns.len();
        let updated_at: i64 = if n == 0 {
            now
        } else {
            chat.turns[n - 1].created_at.timestamp()
        };
        let system_prompt = match &chat.system_prompt {
            Some(p) => Some(p.clone()),
            None => None,
        };
        Self {
            id: sql::id_to_string(chat.id.0),
            workspace_id: sql::id_to_string(workspace_id.0),
            title: sql::write_title(&chat.title),
            system_prompt,
            created_at: 0,
            updated_at,
        }
    }
}

/// The chat with the given stored columns. Turns are stored apart.
pub fn chat_from_parts(id: &str, title: String, system_prompt: Option<String>) -> (res:
    Conversation)
    ensures
        res.id.0 == sql::uuid_or_nil(id@),
        res.title == sql::title_of(title),
        res.turns@.len() == 0,
        res.system_prompt == system_prompt,
{
    let turns: Vec<Turn> = Vec::new();
    Conversation::new(
        ChatId::from_uuid(sql::read_uuid_or_nil(id)),
        sql::read_title(title),
        turns,
        system_prompt,
    )
}

/// A stored chat is read back with its identity, title and system prompt. Only
/// an empty title is lost.
pub proof fn law_chat_reads_back(
    workspace_id: WorkspaceId,
    chat: Conversation,
    now: i64,
    row: ChatRow,
    back: Conversation,
)
    requires
        row.stores(workspace_id, chat, now),
        back.id.0 == sql::uuid_or_nil(row.id@),
        back.title == sql::title_of(row.title),
        back.system_prompt == row.system_prompt,
    ensures
        back.id == chat.id,
        back.system_prompt == chat.system_prompt,
        !(chat.title matches Some(t) && t@.len() == 0) ==> back.title == chat.title,
{
    sql::law_stored_uuid_reads_back(chat.id.0);
}

/// The pattern that finds `query` anywhere in a title.
pub fn search_pattern(query: &str) -> (res: String)
    ensures
        res@ == "%"@ + query@ + "%"@,
{
    "%".to_owned().concat(query).concat("%")
}

// ---------------------------------------------------------------------------
// The head turn
// ---------------------------------------------------------------------------

/// What to do next in order to set the head turn of a chat.
#[derive(Debug, Clone, PartialEq, Eq)]
pub enum HeadTurnStep {
    /// Find the chat that the turn belongs to.
    LookUpOwner(String),
    /// Store the new head turn.
    Update,
    /// Refuse, with this message.
    Refuse(String),
}

/// A [`HeadTurnStep`] as text.
pub enum HeadTurnStepView {
    LookUpOwner(Seq<char>),
    Update,
    Refuse(Seq<char>),
}

impl View for HeadTurnStep {
    type V = HeadTurnStepView;

    open spec fn view(&self) -> HeadTurnStepView {
        match *self {
            HeadTurnStep::LookUpOwner(turn) => HeadTurnStepView::LookUpOwner(turn@),
            HeadTurnStep::Update => HeadTurnStepView::Update,
            HeadTurnStep::Refuse(message) => HeadTurnStepView::Refuse(message@),
        }
    }
}

/// A request to set the head turn of a chat, or to clear it. Both identities are
/// the stored texts.
#[derive(Debug, Clone, PartialEq, Eq)]
pub struct SetHeadTurn {
    pub chat_id: String,
    pub turn_id: Option<String>,
}

impl SetHeadTurn {
    /// What to do once it is known whether the chat exists.
    pub open spec fn step_for_chat(self, chat_exists: bool) -> HeadTurnStepView {
        if !chat_exists {
            HeadTurnStepView::Refuse(
                "not found: "@ + sql::record_name("chat"@, self.chat_id@),
            )
        } else {
            match self.turn_id {
                Some(turn) => HeadTurnStepView::LookUpOwner(turn@),
                None => HeadTurnStepView::Update,
            }
        }
    }

    /// What to do once it is known which chat the turn belongs to.
    pub open spec fn step_for_owner(self, turn: Seq<char>, owner: Option<Seq<char>>) ->
        HeadTurnStepView {
        match owner {
            Some(owner) => if owner == self.chat_id@ {
                HeadTurnStepView::Update
            } else {
                HeadTurnStepView::Refuse(
                    "conflict: "@ + (sql::record_name("turn"@, turn)
                        + " belongs to another chat"@),
                )
            },
            None => HeadTurnStepView::Refuse("not found: "@ + sql::record_name("turn"@, turn)),
        }
    }

    /// Decides once it is known whether the chat exists.
    pub fn after_chat(&self, chat_exists: bool) -> (res: HeadTurnStep)
        ensures
            res@ == self.step_for_chat(chat_exists),
    {
        if !chat_exists {
            return HeadTurnStep::Refuse(sql::missing("chat", self.chat_id.as_str()));
        }
        match &self.turn_id {
            Some(turn) => HeadTurnStep::LookUpOwner(turn.clone()),
            None => HeadTurnStep::Update,
        }
    }

    /// Decides once it is known which chat the turn `turn_id` belongs to.
    pub fn after_owner(&self, turn_id: &str, owner: &Option<String>) -> (res: HeadTurnStep)
        ensures
            res@ == self.step_for_owner(turn_id@, text::optional(*owner)),
    {
        match owner {
            Some(owner) => {
                if text::same_text(owner.as_str(), self.chat_id.as_str()) {
                    HeadTurnStep::Update
                } else {
                    let message = "turn".to_owned().concat("/").concat(turn_id).concat(
                        " belongs to another chat",
                    );
                    HeadTurnStep::Refuse(sql::conflict(message.as_str()))
                }
            },
            None => HeadTurnStep::Refuse(sql::missing("turn", turn_id)),
        }
    }

    /// The last step, given everything that may be looked up.
    pub open spec fn verdict(self, chat_exists: bool, owner: Option<Seq<char>>) ->
        HeadTurnStepView {
        match self.step_for_chat(chat_exists) {
            HeadTurnStepView::LookUpOwner(turn) => self.step_for_owner(turn, owner),
            step => step,
        }
    }
}

/// The head turn is stored if and only if the chat exists and the new head turn,
/// where there is one, belongs to that chat.
pub proof fn law_head_turn_belongs_to_its_chat(
    request: SetHeadTurn,
    chat_exists: bool,
    owner: Option<Seq<char>>,
)
    ensures
        request.verdict(chat_exists, owner) is Update <==> chat_exists && (request.turn_id is Some
            ==> owner == Some(request.chat_id@)),
        !(request.verdict(chat_exists, owner) is LookUpOwner),
{
}

/// A turn of another chat is reported as a conflict; a chat or a turn that does
/// not exist as not found.
pub proof fn law_refused_head_turn_is_reported(
    request: SetHeadTurn,
    chat_exists: bool,
    owner: Option<Seq<char>>,
    failure: SqlFailure,
)
    requires
        failure matches SqlFailure::Refused { message, .. } && request.verdict(chat_exists, owner)
            == HeadTurnStepView::Refuse(message@),
    ensures
        !chat_exists ==> failure.reported() == PersistenceErrorView::NotFound(
            sql::record_name("chat"@, request.chat_id@),
        ),
        chat_exists && owner is None ==> failure.reported() == PersistenceErrorView::NotFound(
            sql::record_name("turn"@, request.turn_id->0@),
        ),
        chat_exists && owner is Some ==> failure.reported()
            == PersistenceErrorView::ConflictingWrite(
            sql::record_name("turn"@, request.turn_id->0@) + " belongs to another chat"@,
        ),
{
    reveal_strlit("chat");
    reveal_strlit("turn");
    reveal_strlit("not found: ");
    reveal_strlit("conflict: ");
    let chat = sql::record_name("chat"@, request.chat_id@);
    if text::begins(chat, "not found: "@) {
        assert(chat.take(11)[0] == "not found: "@[0]);
    }
    if !chat_exists {
        sql::law_not_found_is_reported(failure, chat);
    } else {
        let turn = sql::record_name("turn"@, request.turn_id->0@);
        if text::begins(turn, "not found: "@) {
            assert(turn.take(11)[0] == "not found: "@[0]);
        }
        let other = turn + " belongs to another chat"@;
        if text::begins(other, "conflict: "@) {
            assert(other.take(10)[0] == "conflict: "@[0]);
        }
        if owner is None {
            sql::law_not_found_is_reported(failure, turn);
        } else {
            sql::law_conflict_is_reported(failure, other);
        }
    }
}

} // verus!
