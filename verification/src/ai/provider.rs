//! What a provider streams back.

use vstd::prelude::*;

use crate::ai::domain::Usage;

verus! {

/// A piece of a tool call that arrives in pieces.
#[derive(Debug, Clone, PartialEq, Eq)]
#[non_exhaustive]
pub struct ToolCallDelta {
    /// The call that the piece belongs to.
    pub call_id: String,
    /// The tool's name, in the first piece.
    pub name: Option<String>,
    /// The next part of the arguments' JSON text.
    pub arguments_delta: String,
}

impl ToolCallDelta {
    /// A piece with the given fields.
    #[must_use]
    pub fn new(call_id: &str, name: Option<String>, arguments_delta: &str) -> (res: Self)
        ensures
            res.call_id@ == call_id@,
            res.name == name,
            res.arguments_delta@ == arguments_delta@,
    {
        Self { call_id: call_id.to_owned(), name, arguments_delta: arguments_delta.to_owned() }
    }
}

/// An event of a provider's stream. The last one is [`StreamEvent::Done`].
#[derive(Debug, Clone, PartialEq, Eq)]
#[non_exhaustive]
pub enum StreamEvent {
    /// More text.
    TextDelta(String),
    /// More of a tool call.
    ToolCallDelta(ToolCallDelta),
    /// Token counts.
    UsageReport(Usage),
    /// The stream is complete.
    Done,
}

} // verus!
