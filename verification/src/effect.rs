//! What a tool call or a command can ask the home shell to do once its own work
//! is complete. Every variant is plain data and can be applied without further
//! lookup.

use std::path::PathBuf;

use vstd::prelude::*;

use crate::id::{BufferId, ChatId, TerminalPaneId, TurnId};
use crate::sandbox::ApprovalReason;

verus! {

/// A zero-based position inside a buffer.
#[derive(Debug, Clone, Copy, PartialEq, Eq, Structural)]
pub struct TextPosition {
    /// Line index.
    pub line: u32,
    /// Column index, in UTF-16 code units.
    pub column: u32,
}

impl TextPosition {
    /// The position at the given line and column.
    #[must_use]
    pub fn new(line: u32, column: u32) -> (res: Self)
        ensures
            res == (TextPosition { line, column }),
    {
        Self { line, column }
    }
}

/// A half-open range inside a buffer. Whoever applies it orders the endpoints.
#[derive(Debug, Clone, Copy, PartialEq, Eq, Structural)]
pub struct TextRange {
    /// First position of the range.
    pub start: TextPosition,
    /// First position after the range.
    pub end: TextPosition,
}

impl TextRange {
    /// The range between two positions.
    #[must_use]
    pub fn new(start: TextPosition, end: TextPosition) -> (res: Self)
        ensures
            res == (TextRange { start, end }),
    {
        Self { start, end }
    }
}

/// One replacement inside a buffer: the text of `range` gives way to
/// `replacement`.
#[derive(Debug, Clone, PartialEq, Eq)]
pub struct BufferEdit {
    /// What is replaced; empty for an insertion.
    pub range: TextRange,
    /// What comes in its place; empty for a deletion.
    pub replacement: String,
}

impl BufferEdit {
    /// The replacement of `range` by `replacement`.
    #[must_use]
    pub fn new(range: TextRange, replacement: &str) -> (res: Self)
        ensures
            res.range == range,
            res.replacement@ == replacement@,
    {
        Self { range, replacement: replacement.to_owned() }
    }
}

/// How severe a notification is.
#[derive(Debug, Clone, Copy, PartialEq, Eq, Structural)]
#[non_exhaustive]
pub enum NotificationLevel {
    /// Informational.
    Info,
    /// Advisory.
    Warning,
    /// A failure that the user should acknowledge.
    Error,
}

/// A side effect that a tool or a command requests.
#[derive(Debug, Clone, PartialEq, Eq)]
#[non_exhaustive]
pub enum Effect {
    /// Apply edits to a buffer, in order and in one transaction.
    ApplyBufferEdits {
        /// The buffer.
        buffer_id: BufferId,
        /// The edits; may be empty.
        edits: Vec<BufferEdit>,
    },
    /// Push a command into a terminal pane.
    SubmitTerminalCommand {
        /// The pane.
        pane_id: TerminalPaneId,
        /// The command, without a trailing newline.
        command: String,
    },
    /// Open a file in the editor.
    OpenFile {
        /// Path of the file, resolved against the active workspace.
        path: PathBuf,
        /// Whether the active pane switches to it.
        focus: bool,
    },
    /// Show the user a one-line message.
    EmitNotification {
        /// How severe it is.
        level: NotificationLevel,
        /// The message.
        message: String,
    },
    /// Show an approval card.
    ShowApprovalRequest {
        /// What to ask.
        reason: ApprovalReason,
        /// Carried back by the answer, so that concurrent prompts stay apart.
        request_id: String,
    },
    /// Pin a banner at the top of the home shell.
    ShowUpdateBanner {
        /// The banner's text.
        message: String,
        /// The label of its button, if it has one.
        action_label: Option<String>,
    },
    /// Drop what is cached of a chat's history.
    RefreshConversationHistory {
        /// The chat.
        chat_id: ChatId,
    },
    /// Bring a turn of a chat into view.
    ScrollToTurn {
        /// The chat.
        chat_id: ChatId,
        /// The turn.
        turn_id: TurnId,
    },
}

} // verus!
