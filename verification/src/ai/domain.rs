//! Conversations, turns and models.

use vstd::prelude::*;

use crate::id::{ChatId, TurnId};
use crate::numeral;
use crate::time::Timestamp;

verus! {

/// Who speaks in a turn.
#[derive(Debug, Clone, Copy, PartialEq, Eq, Hash, Structural)]
pub enum Role {
    /// Framing that the application provides.
    System,
    /// The user.
    User,
    /// The model.
    Assistant,
    /// A tool's answer.
    Tool,
}

/// Where an image comes from.
#[derive(Debug, Clone, PartialEq, Eq)]
pub enum ImagePayload {
    /// An address that the provider fetches.
    Url(String),
    /// The encoded image itself.
    Bytes(Vec<u8>),
}

/// One part of a turn.
#[derive(Debug, Clone, PartialEq, Eq)]
#[non_exhaustive]
pub enum Part {
    /// Plain text.
    Text(String),
    /// The model asks for a tool call.
    ToolCall {
        /// Correlates the call with its result.
        id: String,
        /// The tool's name.
        name: String,
        /// The arguments.
        arguments: serde_json::Value,
    },
    /// What a tool call returned.
    ToolResult {
        /// The call that it answers.
        call_id: String,
        /// The returned value.
        content: serde_json::Value,
        /// Whether the call failed.
        is_error: bool,
    },
    /// An image.
    Image {
        /// Its media type.
        mime: String,
        /// The image.
        data: ImagePayload,
    },
}

/// A model of a provider.
#[derive(Debug, Clone, PartialEq, Eq, Hash)]
#[non_exhaustive]
pub struct ModelRef {
    /// The provider.
    pub provider_id: String,
    /// The model's name at the provider.
    pub model_id: String,
}

impl ModelRef {
    /// The model `model_id` of the provider `provider_id`.
    #[must_use]
    pub fn new(provider_id: &str, model_id: &str) -> (res: Self)
        ensures
            res.provider_id@ == provider_id@,
            res.model_id@ == model_id@,
    {
        Self { provider_id: provider_id.to_owned(), model_id: model_id.to_owned() }
    }
}

/// What a model can do.
#[derive(Debug, Clone, Copy, PartialEq, Eq, Hash, Structural)]
#[non_exhaustive]
pub struct Capabilities {
    /// It accepts images.
    pub vision: bool,
    /// It calls tools.
    pub tool_calling: bool,
    /// It streams its answer.
    pub streaming: bool,
}

impl Capabilities {
    /// The given capabilities.
    #[must_use]
    pub fn new(vision: bool, tool_calling: bool, streaming: bool) -> (res: Self)
        ensures
            res == (Capabilities { vision, tool_calling, streaming }),
    {
        Self { vision, tool_calling, streaming }
    }
}

impl Default for Capabilities {
    fn default() -> (res: Self)
        ensures
            res == (Capabilities { vision: false, tool_calling: false, streaming: false }),
    {
        Self { vision: false, tool_calling: false, streaming: false }
    }
}

/// What is known of a model.
#[derive(Debug, Clone, PartialEq, Eq)]
#[non_exhaustive]
pub struct ModelInfo {
    /// The model.
    pub model_ref: ModelRef,
    /// The name that it is shown under.
    pub display_name: String,
    /// The size of its context, in tokens.
    pub context_window: u32,
    /// What it can do.
    pub capabilities: Capabilities,
}

impl ModelInfo {
    /// A description with the given fields.
    #[must_use]
    pub fn new(
        model_ref: ModelRef,
        display_name: &str,
        context_window: u32,
        capabilities: Capabilities,
    ) -> (res: Self)
        ensures
            res.model_ref == model_ref,
            res.display_name@ == display_name@,
            res.context_window == context_window,
            res.capabilities == capabilities,
    {
        Self { model_ref, display_name: display_name.to_owned(), context_window, capabilities }
    }
}

/// A sampling knob, held as the bits of a single-precision number.
#[derive(Debug, Clone, Copy)]
pub struct SamplingValue {
    /// The IEEE 754 binary32 encoding of the number.
    pub bits: u32,
}

impl PartialEq for SamplingValue {
    fn eq(&self, other: &Self) -> (res: bool) {
        numeral::same_single(self.bits, other.bits)
    }
}

impl vstd::std_specs::cmp::PartialEqSpecImpl for SamplingValue {
    open spec fn obeys_eq_spec() -> bool {
        true
    }

    /// Whether the two are equal numbers.
    open spec fn eq_spec(&self, other: &Self) -> bool {
        numeral::equal_singles(self.bits, other.bits)
    }
}

/// How a provider is asked to sample. An unset knob leaves the choice to the
/// provider.
#[derive(Debug, Clone, PartialEq)]
#[non_exhaustive]
pub struct GenerationParams {
    /// The temperature.
    pub temperature: Option<SamplingValue>,
    /// The threshold of nucleus sampling.
    pub top_p: Option<SamplingValue>,
    /// The greatest number of tokens to produce.
    pub max_tokens: Option<u32>,
    /// The texts that end the generation.
    pub stop: Vec<String>,
}

impl GenerationParams {
    /// The given knobs.
    #[must_use]
    pub fn new(
        temperature: Option<SamplingValue>,
        top_p: Option<SamplingValue>,
        max_tokens: Option<u32>,
        stop: Vec<String>,
    ) -> (res: Self)
        ensures
            res == (GenerationParams { temperature, top_p, max_tokens, stop }),
    {
        Self { temperature, top_p, max_tokens, stop }
    }
}

impl Default for GenerationParams {
    /// No knob is set, and nothing ends the generation early.
    fn default() -> (res: Self)
        ensures
            res.temperature is None,
            res.top_p is None,
            res.max_tokens is None,
            res.stop@.len() == 0,
    {
        Self { temperature: None, top_p: None, max_tokens: None, stop: Vec::new() }
    }
}

/// The token counts that a provider reports.
#[derive(Debug, Clone, Copy, PartialEq, Eq, Hash, Structural)]
#[non_exhaustive]
pub struct Usage {
    /// Tokens read.
    pub input_tokens: u32,
    /// Tokens produced.
    pub output_tokens: u32,
    /// Tokens read from a cache.
    pub cached_input_tokens: u32,
}

impl Usage {
    /// The given counts.
    #[must_use]
    pub fn new(input_tokens: u32, output_tokens: u32, cached_input_tokens: u32) -> (res: Self)
        ensures
            res == (Usage { input_tokens, output_tokens, cached_input_tokens }),
    {
        Self { input_tokens, output_tokens, cached_input_tokens }
    }
}

impl Default for Usage {
    fn default() -> (res: Self)
        ensures
            res == (Usage { input_tokens: 0, output_tokens: 0, cached_input_tokens: 0 }),
    {
        Self { input_tokens: 0, output_tokens: 0, cached_input_tokens: 0 }
    }
}

/// One turn of a conversation.
#[derive(Debug, Clone, PartialEq, Eq)]
#[non_exhaustive]
pub struct Turn {
    /// Its identity.
    pub id: TurnId,
    /// Who speaks.
    pub role: Role,
    /// What is said, in order.
    pub parts: Vec<Part>,
    /// When it was made.
    pub created_at: Timestamp,
    /// The model that produced it, for turns of the assistant.
    pub model: Option<ModelRef>,
}

impl Turn {
    /// A turn with the given fields.
    #[must_use]
    pub fn new(
        id: TurnId,
        role: Role,
        parts: Vec<Part>,
        created_at: Timestamp,
        model: Option<ModelRef>,
    ) -> (res: Self)
        ensures
            res == (Turn { id, role, parts, created_at, model }),
    {
        Self { id, role, parts, created_at, model }
    }
}

/// A conversation.
#[derive(Debug, Clone, PartialEq, Eq)]
#[non_exhaustive]
pub struct Conversation {
    /// Its identity.
    pub id: ChatId,
    /// Its title, if it has one.
    pub title: Option<String>,
    /// Its turns, oldest first.
    pub turns: Vec<Turn>,
    /// The system prompt, if it has one of its own.
    pub system_prompt: Option<String>,
}

impl Conversation {
    /// A conversation with the given fields.
    #[must_use]
    pub fn new(
        id: ChatId,
        title: Option<String>,
        turns: Vec<Turn>,
        system_prompt: Option<String>,
    ) -> (res: Self)
        ensures
            res == (Conversation { id, title, turns, system_prompt }),
    {
        Self { id, title, turns, system_prompt }
    }
}

} // verus!
