//! What holds of names, handles, errors and other plain data.

use std::sync::atomic::{AtomicBool, Ordering};

use vstd::prelude::*;
use vstd::string::*;

use crate::agent::AgentLoopBudget;
use crate::ai::domain::{Capabilities, GenerationParams, ModelRef, Usage};
use crate::ai::error::AiError;
use crate::ai::secret::{SecretError, SecretRef};
use crate::ai::provider::ToolCallDelta;
use crate::command::{Command, CommandCategory, CommandContext, CommandId, CommandScope};
use crate::effect::{BufferEdit, TextPosition, TextRange};
use crate::error;
use crate::foreign;
use crate::keybinding::{Key, KeyBinding, KeyBindingParseError, KeybindingProfileId, Modifiers};
use crate::numeral;
use crate::persistence::error::PersistenceError;
use crate::sandbox::{ApprovalReason, EnvVarName, NetworkPatternParseError};
use crate::text;
use crate::theme::ThemeId;
use crate::time::Duration;
use crate::tool::{CancelToken, ToolArgs, ToolError, ToolErrorKind, ToolId};
use crate::workspace::{Workspace, WorkspaceRef};

verus! {

// ---------------------------------------------------------------------------
// Names
// ---------------------------------------------------------------------------

/// Names are kept as they were given.
pub proof fn law_names_are_kept(
    name: &str,
    theme: ThemeId,
    theme_text: &str,
    tool: ToolId,
    tool_text: &str,
    variable: EnvVarName,
    variable_text: &str,
    secret: SecretRef,
    secret_text: &str,
    profile: KeybindingProfileId,
    profile_text: &str,
)
    requires
        call_ensures(ThemeId::new, (name,), theme),
        call_ensures(ThemeId::as_str, (&theme,), theme_text),
        call_ensures(ToolId::new, (name,), tool),
        call_ensures(ToolId::as_str, (&tool,), tool_text),
        call_ensures(EnvVarName::new, (name,), variable),
        call_ensures(EnvVarName::as_str, (&variable,), variable_text),
        call_ensures(SecretRef::new, (name,), secret),
        call_ensures(SecretRef::as_str, (&secret,), secret_text),
        call_ensures(KeybindingProfileId::new, (name,), profile),
        call_ensures(KeybindingProfileId::as_str, (&profile,), profile_text),
    ensures
        theme_text@ == name@,
        tool_text@ == name@,
        variable_text@ == name@,
        secret_text@ == name@,
        profile_text@ == name@,
{
}

/// Each provider has a key of its own for its API key, under the application's name.
pub proof fn law_providers_have_their_own_keys(
    provider: &str,
    other: &str,
    key: SecretRef,
    other_key: SecretRef,
    shown: &str,
    other_shown: &str,
)
    requires
        call_ensures(SecretRef::provider_api_key, (provider,), key),
        call_ensures(SecretRef::provider_api_key, (other,), other_key),
        call_ensures(SecretRef::as_str, (&key,), shown),
        call_ensures(SecretRef::as_str, (&other_key,), other_shown),
    ensures
        shown@ == other_shown@ <==> provider@ == other@,
        text::begins(shown@, "openspace.provider."@),
        text::ends(shown@, ".api_key"@),
{
    let a = "openspace.provider."@;
    let z = ".api_key"@;
    let s = shown@;
    let t = other_shown@;
    assert(s.take(a.len() as int) =~= a);
    assert(s.skip(s.len() - z.len()) =~= z);
    assert(s.subrange(a.len() as int, s.len() - z.len()) =~= provider@);
    assert(t.subrange(a.len() as int, t.len() - z.len()) =~= other@);
}

/// A handle has the identity and the label of its workspace.
pub proof fn law_handle_is_of_its_workspace(workspace: Workspace, handle: WorkspaceRef)
    requires
        call_ensures(Workspace::as_ref, (&workspace,), handle),
    ensures
        handle.id == workspace.id,
        handle.display_name@ == workspace.display_name@,
{
}

/// A reason says what it is given to say, and has a detail only where it is given one.
pub proof fn law_reasons_say_what_they_are_given(
    summary: &str,
    detail: &str,
    short: ApprovalReason,
    long: ApprovalReason,
)
    requires
        call_ensures(ApprovalReason::new, (summary,), short),
        call_ensures(ApprovalReason::with_detail, (summary, detail), long),
    ensures
        short.summary@ == summary@,
        short.detail is None,
        long.summary@ == summary@,
        long.detail matches Some(d) && d@ == detail@,
{
}

/// A model is named by its provider and its name there. Nothing is claimed, counted or set
/// by default.
pub proof fn law_plain_defaults(
    provider: &str,
    model: &str,
    named: ModelRef,
    capabilities: Capabilities,
    usage: Usage,
    params: GenerationParams,
)
    requires
        call_ensures(ModelRef::new, (provider, model), named),
        call_ensures(Capabilities::default, (), capabilities),
        call_ensures(Usage::default, (), usage),
        call_ensures(GenerationParams::default, (), params),
    ensures
        named.provider_id@ == provider@ && named.model_id@ == model@,
        !capabilities.vision && !capabilities.tool_calling && !capabilities.streaming,
        usage.input_tokens + usage.output_tokens + usage.cached_input_tokens == 0,
        params.temperature is None && params.top_p is None && params.max_tokens is None,
        params.stop@.len() == 0,
{
}

// ---------------------------------------------------------------------------
// Tools
// ---------------------------------------------------------------------------

/// All clones of a token share its flag, so that setting it through one sets it for all.
pub proof fn law_clones_share_the_flag(token: CancelToken, clone: CancelToken)
    requires
        call_ensures(CancelToken::clone, (&token,), clone),
    ensures
        clone.cell() == token.cell(),
{
}

/// Arguments are kept as they were given.
pub proof fn law_arguments_are_kept(
    value: serde_json::Value,
    args: ToolArgs,
    borrowed: &serde_json::Value,
    inner: serde_json::Value,
)
    requires
        call_ensures(ToolArgs::new, (value,), args),
        call_ensures(ToolArgs::as_value, (&args,), borrowed),
        call_ensures(ToolArgs::into_inner, (args,), inner),
    ensures
        *borrowed == value,
        inner == value,
{
}

/// A tool's error is of the kind that its constructor is named after and shows the kind by
/// name, then what happened.
pub proof fn law_tool_errors_have_their_kind(
    message: &str,
    kind: ToolErrorKind,
    made: ToolError,
    invalid: ToolError,
    blocked: ToolError,
    cancelled: ToolError,
    shown: String,
)
    requires
        call_ensures(ToolError::new, (kind, message), made),
        call_ensures(ToolError::invalid_args, (message,), invalid),
        call_ensures(ToolError::sandbox_blocked, (message,), blocked),
        call_ensures(ToolError::cancelled, (), cancelled),
        call_ensures(ToolError::to_string, (&made,), shown),
    ensures
        made.kind == kind && made.message@ == message@,
        invalid.kind is InvalidArgs && invalid.message@ == message@,
        blocked.kind is SandboxBlocked && blocked.message@ == message@,
        cancelled.kind is Cancelled && cancelled.message@ == "tool execution cancelled"@,
        kind is InvalidArgs ==> shown@ == "InvalidArgs"@ + ": "@ + message@,
        kind is SandboxBlocked ==> shown@ == "SandboxBlocked"@ + ": "@ + message@,
        kind is Cancelled ==> shown@ == "Cancelled"@ + ": "@ + message@,
        kind is Io ==> shown@ == "Io"@ + ": "@ + message@,
        kind is Internal ==> shown@ == "Internal"@ + ": "@ + message@,
{
}

// ---------------------------------------------------------------------------
// Errors
// ---------------------------------------------------------------------------

/// A failure of a store is shown by its kind and then in its own words.
pub proof fn law_store_errors_are_shown(e: PersistenceError, shown: String)
    requires
        call_ensures(PersistenceError::to_string, (&e,), shown),
    ensures
        match e {
            PersistenceError::MigrationFailed(m) => shown@ == "migration failed: "@ + m@,
            PersistenceError::IoError(m) => shown@ == "io error: "@ + m@,
            PersistenceError::SerializationError(m) => shown@ == "serialization error: "@ + m@,
            PersistenceError::NotFound(m) => shown@ == "not found: "@ + m@,
            PersistenceError::ConflictingWrite(m) => shown@ == "conflicting write: "@ + m@,
            PersistenceError::SchemaVersionMismatch(m) => shown@ == "schema version mismatch: "@
                + m@,
            PersistenceError::DatabaseLocked(m) => shown@ == "database locked: "@ + m@,
        },
{
}

/// A failure of state outside the database is shown by its kind and then in its own words.
pub proof fn law_state_errors_are_shown(e: error::PersistenceError, shown: String)
    requires
        call_ensures(error::PersistenceError::to_string, (&e,), shown),
    ensures
        match e {
            error::PersistenceError::Io(m) => shown@ == "io error: "@ + m@,
            error::PersistenceError::Serialization(m) => shown@ == "serialization error: "@ + m@,
            error::PersistenceError::NotFound(m) => shown@ == "not found: "@ + m@,
            error::PersistenceError::Conflict(m) => shown@ == "conflict: "@ + m@,
        },
{
}

/// A failure of a provider is shown by its kind and then in its own words: a limit with the
/// whole seconds to wait, a model with its provider.
pub proof fn law_provider_errors_are_shown(e: AiError, shown: String)
    requires
        call_ensures(AiError::to_string, (&e,), shown),
    ensures
        match e {
            AiError::Network(m) => shown@ == "network error: "@ + m@,
            AiError::Auth(m) => shown@ == "auth error: "@ + m@,
            AiError::RateLimited { retry_after } => match retry_after {
                Some(d) => shown@ == "rate limited (retry after "@ + numeral::decimal(
                    (d.nanos as int / 1_000_000_000) as nat,
                ) + "s)"@,
                None => shown@ == "rate limited"@,
            },
            AiError::InvalidRequest(m) => shown@ == "invalid request: "@ + m@,
            AiError::ModelNotFound(model) => shown@ == "model not found: "@ + model.provider_id@
                + "/"@ + model.model_id@,
            AiError::ProviderError { provider_id, message } => shown@ == "provider "@ + provider_id@
                + " error: "@ + message@,
            AiError::Cancelled => shown@ == "cancelled"@,
            AiError::Unsupported(m) => shown@ == "unsupported: "@ + m@,
            AiError::Other(m) => shown@ == "other error: "@ + m@,
        },
{
}

/// A failed secret store is shown in its own words; a refused pattern and a refused binding
/// repeat what was given, quoted.
pub proof fn law_refusals_quote_what_was_given(
    m: String,
    secret: String,
    pattern: NetworkPatternParseError,
    pattern_text: String,
    binding: KeyBindingParseError,
    binding_text: String,
)
    requires
        call_ensures(SecretError::to_string, (&SecretError::Backend(m),), secret),
        call_ensures(NetworkPatternParseError::to_string, (&pattern,), pattern_text),
        call_ensures(KeyBindingParseError::to_string, (&binding,), binding_text),
    ensures
        secret@ == "secret store backend error: "@ + m@,
        pattern_text@ == "invalid network pattern "@ + text::debug_quoted(pattern@.raw) + ": "@
            + pattern@.reason,
        match binding {
            KeyBindingParseError::Empty => binding_text@ == "empty key binding"@,
            KeyBindingParseError::EmptyToken { input } => binding_text@ == "malformed key binding "@
                + text::debug_quoted(input@) + ": empty token"@,
            KeyBindingParseError::UnknownModifier { input, token } => binding_text@
                == "unknown modifier "@ + text::debug_quoted(token@) + " in "@
                + text::debug_quoted(input@),
            KeyBindingParseError::DuplicateModifier { input, modifier } => binding_text@
                == "duplicate modifier "@ + text::debug_quoted(modifier@) + " in "@
                + text::debug_quoted(input@),
            KeyBindingParseError::UnknownKey { input, token } => binding_text@ == "unknown key "@
                + text::debug_quoted(token@) + " in "@ + text::debug_quoted(input@),
            KeyBindingParseError::MissingKey { input } => binding_text@ == "missing key in "@
                + text::debug_quoted(input@),
        },
{
}

/// An input or output error and a JSON error become errors of those kinds, with the message
/// that they show.
pub proof fn law_outside_errors_keep_their_message(
    io: std::io::Error,
    json: serde_json::Error,
    stored_io: PersistenceError,
    stored_json: PersistenceError,
    state_io: error::PersistenceError,
    state_json: error::PersistenceError,
)
    requires
        call_ensures(<PersistenceError as From<std::io::Error>>::from, (io,), stored_io),
        call_ensures(<PersistenceError as From<serde_json::Error>>::from, (json,), stored_json),
        call_ensures(<error::PersistenceError as From<std::io::Error>>::from, (io,), state_io),
        call_ensures(
            <error::PersistenceError as From<serde_json::Error>>::from,
            (json,),
            state_json,
        ),
    ensures
        stored_io matches PersistenceError::IoError(m) && foreign::shows_io(io, m),
        stored_json matches PersistenceError::SerializationError(m) && foreign::shows_json(json, m),
        state_io matches error::PersistenceError::Io(m) && foreign::shows_io(io, m),
        state_json matches error::PersistenceError::Serialization(m) && foreign::shows_json(
            json,
            m,
        ),
{
}

/// A token is made with a cleared flag, and cancelling sets the flag that asking reads.
pub proof fn law_token_is_cleared_then_set(
    token: CancelToken,
    default: CancelToken,
    asked: CancelToken,
    answer: bool,
)
    requires
        call_ensures(CancelToken::new, (), token),
        call_ensures(CancelToken::default, (), default),
        call_ensures(CancelToken::cancelled, (&asked,), answer),
        call_ensures(CancelToken::cancel, (&asked,), ()),
    ensures
        call_ensures(AtomicBool::new, (false,), *token.cell()),
        call_ensures(AtomicBool::new, (false,), *default.cell()),
        call_ensures(AtomicBool::load, (&*asked.cell(), Ordering::SeqCst), answer),
        call_ensures(AtomicBool::store, (&*asked.cell(), true, Ordering::SeqCst), ()),
{
}

/// Commands, contexts and instructions are made of what they are given.
pub proof fn law_commands_keep_their_parts(
    id: CommandId,
    label: &str,
    category: CommandCategory,
    shortcut: Option<KeyBinding>,
    scope: CommandScope,
    description: Option<String>,
    command: Command,
    modifiers: Modifiers,
    key: Key,
    binding: KeyBinding,
    workspace: WorkspaceRef,
    token: CancelToken,
    context: CommandContext,
)
    requires
        call_ensures(
            Command::new,
            (id, label, category, shortcut, scope, description),
            command,
        ),
        call_ensures(KeyBinding::new, (modifiers, key), binding),
        call_ensures(CommandContext::new, (workspace, token), context),
    ensures
        command.id == id && command.label@ == label@ && command.category == category,
        command.default_keybinding == shortcut && command.scope == scope,
        command.description == description,
        binding.modifiers == modifiers && binding.key == key,
        context.workspace == workspace && context.cancel_token == token,
{
}

/// A budget has the limits that it is given, each on its own dimension, and a report the
/// counts.
pub proof fn law_budgets_keep_their_limits(
    turns: Option<u32>,
    tokens: Option<u32>,
    clock: Option<Duration>,
    calls: Option<u32>,
    budget: AgentLoopBudget,
    unlimited: AgentLoopBudget,
    input: u32,
    output: u32,
    cached: u32,
    usage: Usage,
)
    requires
        call_ensures(AgentLoopBudget::new, (turns, tokens, clock, calls), budget),
        call_ensures(AgentLoopBudget::default, (), unlimited),
        call_ensures(Usage::new, (input, output, cached), usage),
    ensures
        budget.max_turns == turns && budget.max_total_tokens == tokens,
        budget.max_wall_clock == clock && budget.max_tool_calls == calls,
        unlimited.max_turns is None && unlimited.max_total_tokens is None,
        unlimited.max_wall_clock is None && unlimited.max_tool_calls is None,
        usage.input_tokens == input && usage.output_tokens == output,
        usage.cached_input_tokens == cached,
{
}

/// Positions, ranges, edits and pieces of calls are made of what they are given.
pub proof fn law_edits_keep_their_parts(
    line: u32,
    column: u32,
    position: TextPosition,
    start: TextPosition,
    end: TextPosition,
    range: TextRange,
    replacement: &str,
    edit: BufferEdit,
    call_id: &str,
    name: Option<String>,
    arguments: &str,
    delta: ToolCallDelta,
)
    requires
        call_ensures(TextPosition::new, (line, column), position),
        call_ensures(TextRange::new, (start, end), range),
        call_ensures(BufferEdit::new, (range, replacement), edit),
        call_ensures(ToolCallDelta::new, (call_id, name, arguments), delta),
    ensures
        position.line == line && position.column == column,
        range.start == start && range.end == end,
        edit.range == range && edit.replacement@ == replacement@,
        delta.call_id@ == call_id@ && delta.name == name && delta.arguments_delta@ == arguments@,
{
}

} // verus!
