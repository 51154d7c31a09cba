//! What holds of records: whatever they are made of is found in the field of its name.

use std::sync::Arc;

use vstd::prelude::*;
use vstd::string::*;

use crate::agent::{
    AccumulatedUsage, AgentLoopBudget, AgentLoopState, InjectedInstruction, InjectionScope,
    LoopStatus,
};
use crate::ai::domain::{
    Capabilities, Conversation, GenerationParams, ModelInfo, ModelRef, Part, Role, SamplingValue,
    Turn,
};
use crate::command::{CommandContext, CommandId};
use crate::effect::Effect;
use crate::id;
use crate::id::{
    AttachmentId, BufferId, ChatId, PaneId, PermissionGrantId, SessionId, TerminalPaneId, TurnId,
    WorkspaceId,
};
use crate::json;
use crate::keybinding::{KeybindingProfile, KeybindingProfileId};
use crate::persistence::types::{
    Attachment, PermissionDecision, PermissionGrant, PermissionScope, Session, SessionMode,
};
use crate::sandbox::{
    ApprovalReason, EnvAction, EnvVarName, HostPattern, NetworkPattern, PermissionPolicy,
    SandboxPolicy,
};
use crate::theme::ThemeId;
use crate::time::Timestamp;
use crate::tool::{CancelToken, ToolArgs, ToolContext, ToolId, ToolOutcome, ToolSchema};
use crate::workspace::{Workspace, WorkspaceRef};

verus! {

/// A new identifier is a random UUID: of version 4, with the variant of RFC 4122.
pub proof fn law_new_identifiers_are_drawn(
    workspace: WorkspaceId,
    chat: ChatId,
    turn: TurnId,
    buffer: BufferId,
    terminal: TerminalPaneId,
    pane: PaneId,
    session: SessionId,
    attachment: AttachmentId,
    grant: PermissionGrantId,
)
    requires
        call_ensures(WorkspaceId::new_v4, (), workspace),
        call_ensures(ChatId::new_v4, (), chat),
        call_ensures(TurnId::new_v4, (), turn),
        call_ensures(BufferId::new_v4, (), buffer),
        call_ensures(TerminalPaneId::new_v4, (), terminal),
        call_ensures(PaneId::new_v4, (), pane),
        call_ensures(SessionId::new_v4, (), session),
        call_ensures(AttachmentId::new_v4, (), attachment),
        call_ensures(PermissionGrantId::new_v4, (), grant),
    ensures
        id::drawn(workspace.0) && id::is_random_uuid(workspace.0),
        id::drawn(chat.0) && id::is_random_uuid(chat.0),
        id::drawn(turn.0) && id::is_random_uuid(turn.0),
        id::drawn(buffer.0) && id::is_random_uuid(buffer.0),
        id::drawn(terminal.0) && id::is_random_uuid(terminal.0),
        id::drawn(pane.0) && id::is_random_uuid(pane.0),
        id::drawn(session.0) && id::is_random_uuid(session.0),
        id::drawn(attachment.0) && id::is_random_uuid(attachment.0),
        id::drawn(grant.0) && id::is_random_uuid(grant.0),
{
}

/// Names are written as they were given.
pub proof fn law_names_are_written(
    name: &str,
    theme: ThemeId,
    theme_text: String,
    tool: ToolId,
    tool_text: String,
    profile: KeybindingProfileId,
    profile_text: String,
)
    requires
        call_ensures(ThemeId::new, (name,), theme),
        call_ensures(ThemeId::to_string, (&theme,), theme_text),
        call_ensures(ToolId::new, (name,), tool),
        call_ensures(ToolId::to_string, (&tool,), tool_text),
        call_ensures(KeybindingProfileId::new, (name,), profile),
        call_ensures(KeybindingProfileId::to_string, (&profile,), profile_text),
    ensures
        theme_text@ == name@,
        tool_text@ == name@,
        profile_text@ == name@,
{
}

/// A profile starts without bindings, under the name that its argument is turned into.
pub proof fn law_profile_starts_empty<I: Into<KeybindingProfileId>>(
    name: I,
    profile: KeybindingProfile,
)
    requires
        call_ensures(KeybindingProfile::new::<I>, (name,), profile),
    ensures
        profile.bindings@.dom() =~= Set::empty(),
        call_ensures(I::into, (name,), profile.id),
{
}

/// A workspace and a handle are made of what they are given.
pub proof fn law_workspaces_keep_their_parts(
    id: WorkspaceId,
    root: std::path::PathBuf,
    label: String,
    workspace: Workspace,
    handle: WorkspaceRef,
)
    requires
        call_ensures(Workspace::new, (id, root, label), workspace),
        call_ensures(WorkspaceRef::new, (id, label), handle),
    ensures
        workspace.id == id && workspace.root == root && workspace.display_name == label,
        handle.id == id && handle.display_name == label,
{
}

/// A model, its abilities and its knobs are made of what they are given.
pub proof fn law_models_keep_their_parts(
    vision: bool,
    tools: bool,
    streaming: bool,
    capabilities: Capabilities,
    model: ModelRef,
    name: &str,
    window: u32,
    info: ModelInfo,
    temperature: Option<SamplingValue>,
    top_p: Option<SamplingValue>,
    most: Option<u32>,
    stop: Vec<String>,
    params: GenerationParams,
)
    requires
        call_ensures(Capabilities::new, (vision, tools, streaming), capabilities),
        call_ensures(ModelInfo::new, (model, name, window, capabilities), info),
        call_ensures(GenerationParams::new, (temperature, top_p, most, stop), params),
    ensures
        capabilities.vision == vision && capabilities.tool_calling == tools,
        capabilities.streaming == streaming,
        info.model_ref == model && info.display_name@ == name@,
        info.context_window == window && info.capabilities == capabilities,
        params.temperature == temperature && params.top_p == top_p,
        params.max_tokens == most && params.stop == stop,
{
}

/// A turn and a conversation are made of what they are given.
pub proof fn law_conversations_keep_their_parts(
    turn_id: TurnId,
    role: Role,
    parts: Vec<Part>,
    at: Timestamp,
    model: Option<ModelRef>,
    turn: Turn,
    chat_id: ChatId,
    title: Option<String>,
    turns: Vec<Turn>,
    prompt: Option<String>,
    conversation: Conversation,
)
    requires
        call_ensures(Turn::new, (turn_id, role, parts, at, model), turn),
        call_ensures(Conversation::new, (chat_id, title, turns, prompt), conversation),
    ensures
        turn.id == turn_id && turn.role == role && turn.parts == parts,
        turn.created_at == at && turn.model == model,
        conversation.id == chat_id && conversation.title == title,
        conversation.turns == turns && conversation.system_prompt == prompt,
{
}

/// A session is made of what it is given.
pub proof fn law_sessions_keep_their_parts(
    id: SessionId,
    workspace: WorkspaceId,
    mode: SessionMode,
    title: Option<String>,
    created: Timestamp,
    updated: Timestamp,
    session: Session,
)
    requires
        call_ensures(Session::new, (id, workspace, mode, title, created, updated), session),
    ensures
        session.id == id && session.workspace_id == workspace && session.mode == mode,
        session.title == title && session.created_at == created && session.updated_at == updated,
{
}

/// An attachment is made of what it is given.
pub proof fn law_attachments_keep_their_parts(
    id: AttachmentId,
    chat: ChatId,
    turn: Option<TurnId>,
    file_name: String,
    kind: String,
    size: u64,
    hash: String,
    created: Timestamp,
    attachment: Attachment,
)
    requires
        call_ensures(
            Attachment::new,
            (id, chat, turn, file_name, kind, size, hash, created),
            attachment,
        ),
    ensures
        attachment.id == id && attachment.chat_id == chat && attachment.turn_id == turn,
        attachment.filename == file_name && attachment.mime_type == kind,
        attachment.size_bytes == size && attachment.content_hash == hash,
        attachment.created_at == created,
{
}

/// A permission is made of what it is given.
pub proof fn law_grants_keep_their_parts(
    id: PermissionGrantId,
    workspace: WorkspaceId,
    session: Option<SessionId>,
    tool: String,
    scope: PermissionScope,
    decision: PermissionDecision,
    note: Option<String>,
    created: Timestamp,
    grant: PermissionGrant,
)
    requires
        call_ensures(
            PermissionGrant::new,
            (id, workspace, session, tool, scope, decision, note, created),
            grant,
        ),
    ensures
        grant.id == id && grant.workspace_id == workspace && grant.session_id == session,
        grant.tool_id == tool && grant.scope == scope && grant.decision == decision,
        grant.note == note && grant.created_at == created,
{
}

/// A loop's state and an instruction are made of what they are given. A budget without
/// constraints limits nothing.
pub proof fn law_loops_keep_their_parts(
    id: &str,
    role: Role,
    content: &str,
    scope: InjectionScope,
    instruction: InjectedInstruction,
    chat: ChatId,
    status: LoopStatus,
    budget: AgentLoopBudget,
    usage: AccumulatedUsage,
    pending: Option<ApprovalReason>,
    instructions: Vec<InjectedInstruction>,
    state: AgentLoopState,
    free: AgentLoopBudget,
)
    requires
        call_ensures(InjectedInstruction::new, (id, role, content, scope), instruction),
        call_ensures(
            AgentLoopState::new,
            (chat, status, budget, usage, pending, instructions),
            state,
        ),
        call_ensures(AgentLoopBudget::unconstrained, (), free),
    ensures
        instruction.id@ == id@ && instruction.role == role,
        instruction.content@ == content@ && instruction.scope == scope,
        state.chat_id == chat && state.status == status && state.budget == budget,
        state.usage == usage && state.pending_approval == pending,
        state.injected_instructions == instructions,
        free.max_turns is None && free.max_total_tokens is None,
        free.max_wall_clock is None && free.max_tool_calls is None,
{
}

/// A loop's counts start at nothing, at the moment that is given.
pub proof fn law_counts_start_at_nothing(now: Timestamp, usage: AccumulatedUsage)
    requires
        call_ensures(AccumulatedUsage::started_at, (now,), usage),
    ensures
        usage.started_at == now && usage.last_event_at == now,
        usage.turn_count == 0 && usage.tool_call_count == 0,
        usage.usage.input_tokens == 0 && usage.usage.output_tokens == 0,
        usage.usage.cached_input_tokens == 0,
{
}

/// What a tool is described by, called in and answers with is made of what it is given.
pub proof fn law_tools_keep_their_parts<A: ?Sized>(
    name: &str,
    description: &str,
    json: serde_json::Value,
    schema: ToolSchema,
    workspace: WorkspaceRef,
    sandbox: SandboxPolicy,
    token: CancelToken,
    approval: Arc<A>,
    context: ToolContext<A>,
    effects: Vec<Effect>,
    outcome: ToolOutcome,
)
    requires
        call_ensures(ToolSchema::new, (name, description, json), schema),
        call_ensures(ToolContext::<A>::new, (workspace, sandbox, token, approval), context),
        call_ensures(ToolOutcome::new, (name, json, effects), outcome),
    ensures
        schema.name@ == name@ && schema.description@ == description@,
        schema.json_schema == json,
        context.workspace == workspace && context.sandbox == sandbox,
        context.cancel_token == token && context.request_approval == approval,
        outcome.summary@ == name@ && outcome.payload == json && outcome.effects == effects,
{
}

/// A copy has what is copied, in every field.
pub proof fn law_copies_are_the_same(
    command: CommandId,
    copied_command: CommandId,
    profile: KeybindingProfileId,
    copied_profile: KeybindingProfileId,
    theme: ThemeId,
    copied_theme: ThemeId,
    handle: WorkspaceRef,
    copied_handle: WorkspaceRef,
    host: HostPattern,
    copied_host: HostPattern,
    pattern: NetworkPattern,
    copied_pattern: NetworkPattern,
    variable: EnvVarName,
    copied_variable: EnvVarName,
    action: EnvAction,
    copied_action: EnvAction,
)
    requires
        call_ensures(CommandId::clone, (&command,), copied_command),
        call_ensures(KeybindingProfileId::clone, (&profile,), copied_profile),
        call_ensures(ThemeId::clone, (&theme,), copied_theme),
        call_ensures(WorkspaceRef::clone, (&handle,), copied_handle),
        call_ensures(HostPattern::clone, (&host,), copied_host),
        call_ensures(NetworkPattern::clone, (&pattern,), copied_pattern),
        call_ensures(EnvVarName::clone, (&variable,), copied_variable),
        call_ensures(EnvAction::clone, (&action,), copied_action),
    ensures
        copied_command == command,
        copied_profile == profile,
        copied_theme == theme,
        copied_handle == handle,
        copied_host == host,
        copied_pattern == pattern,
        copied_variable == variable,
        copied_action == action,
{
}

/// A copied policy allows and asks the same, and a copied context is of the same workspace
/// and shares the flag.
pub proof fn law_copied_policies_are_the_same<A: ?Sized>(
    permissions: PermissionPolicy,
    copied_permissions: PermissionPolicy,
    policy: SandboxPolicy,
    copied_policy: SandboxPolicy,
    context: CommandContext,
    copied_context: CommandContext,
    tool_context: ToolContext<A>,
    copied_tool_context: ToolContext<A>,
)
    requires
        call_ensures(PermissionPolicy::clone, (&permissions,), copied_permissions),
        call_ensures(SandboxPolicy::clone, (&policy,), copied_policy),
        call_ensures(CommandContext::clone, (&context,), copied_context),
        call_ensures(ToolContext::<A>::clone, (&tool_context,), copied_tool_context),
    ensures
        copied_permissions == permissions,
        copied_policy.trust_mode == policy.trust_mode,
        copied_policy.permissions == policy.permissions,
        copied_policy.network_allowlist@ == policy.network_allowlist@,
        copied_policy.env_actions@ == policy.env_actions@,
        copied_context.workspace == context.workspace,
        copied_context.cancel_token.cell() == context.cancel_token.cell(),
        copied_tool_context.workspace == tool_context.workspace,
        copied_tool_context.sandbox.trust_mode == tool_context.sandbox.trust_mode,
        copied_tool_context.sandbox.permissions == tool_context.sandbox.permissions,
        copied_tool_context.sandbox.network_allowlist@ == tool_context.sandbox.network_allowlist@,
        copied_tool_context.sandbox.env_actions@ == tool_context.sandbox.env_actions@,
        copied_tool_context.cancel_token.cell() == tool_context.cancel_token.cell(),
        copied_tool_context.request_approval == tool_context.request_approval,
{
}

/// Arguments have members where they are a JSON object, and are written as that value.
pub proof fn law_arguments_are_their_value(
    value: serde_json::Value,
    args: ToolArgs,
    members: Option<&serde_json::Map<String, serde_json::Value>>,
    written: String,
)
    requires
        call_ensures(ToolArgs::new, (value,), args),
        call_ensures(ToolArgs::as_object, (&args,), members),
        call_ensures(ToolArgs::to_string, (&args,), written),
    ensures
        members is Some <==> json::members(value) is Some,
        members matches Some(m) ==> json::members(value) == Some(*m),
        written@ == json::compact_text(value),
{
}

} // verus!
