use std::io;

use openspace::ai::domain::{
    Capabilities, Conversation, GenerationParams, ImagePayload, ModelInfo, ModelRef, Part, Role,
    SamplingValue, Turn, Usage,
};
use openspace::ai::error::AiError;
use openspace::ai::provider::{StreamEvent, ToolCallDelta};
use openspace::ai::secret::{SecretError, SecretRef};
use openspace::effect::{BufferEdit, Effect, NotificationLevel, TextPosition, TextRange};
use openspace::id::{
    AttachmentId, BufferId, ChatId, PaneId, PermissionGrantId, SessionId, TerminalPaneId, TurnId,
    WorkspaceId,
};
use openspace::persistence::error::PersistenceError;
use openspace::sandbox::{ApprovalReason, SandboxPolicy, TrustMode};
use openspace::time::{Duration, Timestamp};
use openspace::tool::{
    ApprovalDecision, CancelToken, SafetyClass, ToolArgs, ToolContext, ToolError, ToolErrorKind,
    ToolId, ToolOutcome, ToolSchema,
};
use openspace::workspace::{Workspace, WorkspaceRef};

#[test]
fn smoke() {}

#[test]
fn every_id_implements_the_contract() {
    let raw = uuid::Uuid::new_v4().as_u128();

    let fresh = WorkspaceId::new_v4();
    let copy = fresh;
    assert_eq!(fresh, copy);
    assert_eq!(WorkspaceId::from_uuid(raw).as_uuid(), &raw);

    let fresh = ChatId::new_v4();
    let copy = fresh;
    assert_eq!(fresh, copy);
    assert_eq!(ChatId::from_uuid(raw).as_uuid(), &raw);

    let fresh = TurnId::new_v4();
    let copy = fresh;
    assert_eq!(fresh, copy);
    assert_eq!(TurnId::from_uuid(raw).as_uuid(), &raw);

    let fresh = BufferId::new_v4();
    let copy = fresh;
    assert_eq!(fresh, copy);
    assert_eq!(BufferId::from_uuid(raw).as_uuid(), &raw);

    let fresh = TerminalPaneId::new_v4();
    let copy = fresh;
    assert_eq!(fresh, copy);
    assert_eq!(TerminalPaneId::from_uuid(raw).as_uuid(), &raw);

    let fresh = PaneId::new_v4();
    let copy = fresh;
    assert_eq!(fresh, copy);
    assert_eq!(PaneId::from_uuid(raw).as_uuid(), &raw);
}

#[test]
fn stored_ids_are_random_uuids() {
    for bits in [
        SessionId::new_v4().0,
        AttachmentId::new_v4().0,
        PermissionGrantId::new_v4().0,
        BufferId::new_v4().0,
    ] {
        let uuid = uuid::Uuid::from_u128(bits);
        assert_eq!(uuid.get_version_num(), 4);
        assert_eq!(uuid.get_variant(), uuid::Variant::RFC4122);
    }
}

#[test]
fn fresh_ids_are_distinct() {
    let a = ChatId::new_v4();
    let b = ChatId::new_v4();
    assert_ne!(a, b);
}

#[test]
fn as_ref_mirrors_id_and_display_name() {
    let workspace = Workspace::new(
        WorkspaceId::new_v4(),
        std::path::PathBuf::from("/tmp/workspaces/example"),
        "Example".to_string(),
    );
    let lightweight = workspace.as_ref();
    assert_eq!(lightweight.id, workspace.id);
    assert_eq!(lightweight.display_name, workspace.display_name);
}

#[test]
fn error_display_prefixes_describe_the_category() {
    assert_eq!(AiError::Network("x".into()).to_string(), "network error: x");
    assert_eq!(AiError::Auth("x".into()).to_string(), "auth error: x");
    assert_eq!(
        AiError::RateLimited {
            retry_after: Some(Duration::from_secs(5))
        }
        .to_string(),
        "rate limited (retry after 5s)"
    );
    assert_eq!(
        AiError::RateLimited { retry_after: None }.to_string(),
        "rate limited"
    );
    assert_eq!(
        AiError::InvalidRequest("x".into()).to_string(),
        "invalid request: x"
    );
    assert_eq!(
        AiError::ModelNotFound(ModelRef::new("p", "m")).to_string(),
        "model not found: p/m"
    );
    assert_eq!(
        AiError::ProviderError {
            provider_id: "p".into(),
            message: "m".into()
        }
        .to_string(),
        "provider p error: m"
    );
    assert_eq!(AiError::Cancelled.to_string(), "cancelled");
    assert_eq!(
        AiError::Unsupported("tool calling on a tool-less model".into()).to_string(),
        "unsupported: tool calling on a tool-less model"
    );
    assert_eq!(AiError::Other("x".into()).to_string(), "other error: x");

    assert_eq!(openspace::error::PersistenceError::Io("x".into()).to_string(), "io error: x");
    assert_eq!(
        openspace::error::PersistenceError::Serialization("x".into()).to_string(),
        "serialization error: x"
    );
    assert_eq!(
        openspace::error::PersistenceError::NotFound("x".into()).to_string(),
        "not found: x"
    );
    assert_eq!(
        openspace::error::PersistenceError::Conflict("x".into()).to_string(),
        "conflict: x"
    );
}

#[test]
fn display_prefixes_describe_the_category() {
    assert_eq!(
        PersistenceError::MigrationFailed("x".into()).to_string(),
        "migration failed: x"
    );
    assert_eq!(
        PersistenceError::IoError("x".into()).to_string(),
        "io error: x"
    );
    assert_eq!(
        PersistenceError::SerializationError("x".into()).to_string(),
        "serialization error: x"
    );
    assert_eq!(
        PersistenceError::NotFound("x".into()).to_string(),
        "not found: x"
    );
    assert_eq!(
        PersistenceError::ConflictingWrite("x".into()).to_string(),
        "conflicting write: x"
    );
    assert_eq!(
        PersistenceError::SchemaVersionMismatch("x".into()).to_string(),
        "schema version mismatch: x"
    );
    assert_eq!(
        PersistenceError::DatabaseLocked("x".into()).to_string(),
        "database locked: x"
    );
}

#[test]
fn from_io_error_maps_to_io_variant() {
    let io_err = io::Error::new(io::ErrorKind::PermissionDenied, "denied");
    let mapped: openspace::error::PersistenceError = io_err.into();
    assert!(matches!(mapped, openspace::error::PersistenceError::Io(_)));
    assert_eq!(mapped.to_string(), "io error: denied");
}

#[test]
fn error_from_io_error_maps_to_io_variant() {
    let io_err = io::Error::new(io::ErrorKind::PermissionDenied, "denied");
    let mapped: PersistenceError = io_err.into();
    assert!(matches!(mapped, PersistenceError::IoError(_)));
    assert_eq!(mapped.to_string(), "io error: denied");
}

#[test]
fn from_serde_json_error_maps_to_serialization_variant() {
    let serde_err = serde_json::from_str::<u32>("not a number").unwrap_err();
    let expected = serde_err.to_string();
    let mapped: openspace::error::PersistenceError = serde_err.into();
    match mapped {
        openspace::error::PersistenceError::Serialization(message) => assert_eq!(message, expected),
        other => panic!("expected Serialization, got {other:?}"),
    }
}

#[test]
fn error_from_serde_json_error_maps_to_serialization_variant() {
    let serde_err = serde_json::from_str::<u32>("not a number").unwrap_err();
    let expected = serde_err.to_string();
    let mapped: PersistenceError = serde_err.into();
    match mapped {
        PersistenceError::SerializationError(message) => assert_eq!(message, expected),
        other => panic!("expected SerializationError, got {other:?}"),
    }
}

#[test]
fn pattern_matches_require_a_wildcard_arm() {
    let err = PersistenceError::NotFound("x".into());
    #[allow(unreachable_patterns)]
    let label = match err {
        PersistenceError::MigrationFailed(_) => "migration",
        PersistenceError::IoError(_) => "io",
        PersistenceError::SerializationError(_) => "serde",
        PersistenceError::NotFound(_) => "not_found",
        PersistenceError::ConflictingWrite(_) => "conflict",
        PersistenceError::SchemaVersionMismatch(_) => "schema",
        PersistenceError::DatabaseLocked(_) => "locked",
        _ => "unknown",
    };
    assert_eq!(label, "not_found");
}

#[test]
fn rate_limits_show_durations() {
    let shown = |nanos: u128| {
        AiError::RateLimited {
            retry_after: Some(Duration { nanos }),
        }
        .to_string()
    };
    for nanos in [0u128, 1, 1_500, 1_500_000, 1_500_000_000, 90_000_000_000, 60_000_000_001] {
        let std_duration = std::time::Duration::from_nanos(nanos as u64);
        assert_eq!(shown(nanos), format!("rate limited (retry after {}s)", std_duration.as_secs()));
    }
}

#[test]
fn part_match_uses_wildcard_arm() {
    let parts = [
        Part::Text("a".to_string()),
        Part::ToolCall {
            id: "1".to_string(),
            name: "n".to_string(),
            arguments: serde_json::Value::Null,
        },
        Part::ToolResult {
            call_id: "1".to_string(),
            content: serde_json::Value::Null,
            is_error: false,
        },
        Part::Image {
            mime: "image/png".to_string(),
            data: ImagePayload::Url("file:///x".to_string()),
        },
    ];
    for p in parts {
        #[allow(unreachable_patterns)]
        let label = match p {
            Part::Text(_) => "text",
            Part::ToolCall { .. } => "tool_call",
            Part::ToolResult { .. } => "tool_result",
            Part::Image { .. } => "image",
            _ => "unknown",
        };
        assert!(matches!(
            label,
            "text" | "tool_call" | "tool_result" | "image"
        ));
    }
}

#[test]
fn stream_event_match_uses_wildcard_arm() {
    let events = [
        StreamEvent::TextDelta("a".to_string()),
        StreamEvent::ToolCallDelta(ToolCallDelta::new("c", None, "")),
        StreamEvent::UsageReport(Usage::new(0, 0, 0)),
        StreamEvent::Done,
    ];
    for e in events {
        #[allow(unreachable_patterns)]
        let label = match e {
            StreamEvent::TextDelta(_) => "text",
            StreamEvent::ToolCallDelta(_) => "tool_call",
            StreamEvent::UsageReport(_) => "usage",
            StreamEvent::Done => "done",
            _ => "unknown",
        };
        assert!(matches!(label, "text" | "tool_call" | "usage" | "done"));
    }
}

#[test]
fn provider_api_key_uses_the_documented_namespace() {
    assert_eq!(
        SecretRef::provider_api_key("local").as_str(),
        "openspace.provider.local.api_key"
    );
    assert_eq!(
        SecretRef::provider_api_key("hosted-router").as_str(),
        "openspace.provider.hosted-router.api_key"
    );
}

#[test]
fn secret_errors_name_the_backend() {
    let original = SecretError::Backend("keychain locked".to_string());
    assert_eq!(
        original.to_string(),
        "secret store backend error: keychain locked"
    );
    assert_eq!(SecretRef::new("a.b").as_str(), "a.b");
}

#[test]
fn match_uses_wildcard_arm() {
    let effects = [
        Effect::ApplyBufferEdits {
            buffer_id: BufferId::new_v4(),
            edits: Vec::new(),
        },
        Effect::SubmitTerminalCommand {
            pane_id: TerminalPaneId::new_v4(),
            command: "ls".to_string(),
        },
        Effect::OpenFile {
            path: std::path::PathBuf::from("/x"),
            focus: false,
        },
        Effect::EmitNotification {
            level: NotificationLevel::Info,
            message: "hi".to_string(),
        },
        Effect::ShowApprovalRequest {
            reason: ApprovalReason::new("why"),
            request_id: "r".to_string(),
        },
        Effect::ShowUpdateBanner {
            message: "update".to_string(),
            action_label: None,
        },
        Effect::RefreshConversationHistory {
            chat_id: ChatId::new_v4(),
        },
        Effect::ScrollToTurn {
            chat_id: ChatId::new_v4(),
            turn_id: TurnId::new_v4(),
        },
    ];
    for e in effects {
        #[allow(unreachable_patterns)]
        let label = match e {
            Effect::ApplyBufferEdits { .. } => "buf",
            Effect::SubmitTerminalCommand { .. } => "term",
            Effect::OpenFile { .. } => "open",
            Effect::EmitNotification { .. } => "note",
            Effect::ShowApprovalRequest { .. } => "approve",
            Effect::ShowUpdateBanner { .. } => "banner",
            Effect::RefreshConversationHistory { .. } => "refresh",
            Effect::ScrollToTurn { .. } => "scroll",
            _ => "unknown",
        };
        assert!(matches!(
            label,
            "buf" | "term" | "open" | "note" | "approve" | "banner" | "refresh" | "scroll"
        ));
    }
}

#[test]
fn edits_keep_their_range_and_replacement() {
    let range = TextRange::new(TextPosition::new(1, 2), TextPosition::new(3, 4));
    let edit = BufferEdit::new(range, "new");
    assert_eq!(edit.range, range);
    assert_eq!(edit.replacement, "new");
    assert_eq!(range.start.line, 1);
    assert_eq!(range.end.column, 4);
}

#[test]
fn tool_error_display_contains_kind_and_message() {
    let err = ToolError::invalid_args("missing path");
    let rendered = err.to_string();
    assert!(rendered.contains("InvalidArgs"));
    assert!(rendered.contains("missing path"));
}

#[test]
fn tool_errors_are_worded() {
    let err = ToolError::new(ToolErrorKind::SandboxBlocked, "no");
    assert_eq!(err.kind, ToolErrorKind::SandboxBlocked);
    assert!(err.to_string().contains("SandboxBlocked"));
    assert!(err.to_string().ends_with("no"));
}

#[test]
fn cancel_token_flips_monotonically() {
    let token = CancelToken::new();
    assert!(!token.cancelled());
    token.cancel();
    assert!(token.cancelled());
    token.cancel();
    assert!(token.cancelled());
}

#[test]
fn cancel_token_clone_shares_state() {
    let a = CancelToken::new();
    let b = a.clone();
    assert!(!b.cancelled());
    a.cancel();
    assert!(b.cancelled());
}

#[test]
fn tool_error_kind_match_uses_wildcard_arm() {
    let kinds = [
        ToolErrorKind::InvalidArgs,
        ToolErrorKind::SandboxBlocked,
        ToolErrorKind::Cancelled,
        ToolErrorKind::Io,
        ToolErrorKind::Internal,
    ];
    for k in kinds {
        #[allow(unreachable_patterns)]
        let label = match k {
            ToolErrorKind::InvalidArgs => "args",
            ToolErrorKind::SandboxBlocked => "sandbox",
            ToolErrorKind::Cancelled => "cancel",
            ToolErrorKind::Io => "io",
            ToolErrorKind::Internal => "internal",
            _ => "unknown",
        };
        assert!(matches!(
            label,
            "args" | "sandbox" | "cancel" | "io" | "internal"
        ));
    }
}

fn object() -> serde_json::Value {
    let mut map = serde_json::Map::new();
    map.insert("path".to_string(), serde_json::Value::from("x.rs"));
    serde_json::Value::Object(map)
}

#[test]
fn tool_args_give_access_to_their_value() {
    let args = ToolArgs::new(object());
    assert_eq!(args.as_value(), &object());
    assert_eq!(
        args.as_object().and_then(|m| m.get("path")).and_then(|v| v.as_str()),
        Some("x.rs")
    );
    assert_eq!(args.to_string(), "{\"path\":\"x.rs\"}");
    assert_eq!(args.into_inner(), object());
    let list = ToolArgs::new(serde_json::Value::from(vec![1, 2]));
    assert!(list.as_object().is_none());
    assert_eq!(list.to_string(), "[1,2]");
}

struct Channel;

#[test]
fn tool_calls_carry_their_plumbing() {
    let ctx = ToolContext::new(
        WorkspaceRef::new(WorkspaceId::new_v4(), "Example".to_string()),
        SandboxPolicy::with_trust_mode(TrustMode::Guarded),
        CancelToken::new(),
        std::sync::Arc::new(Channel),
    );
    assert_eq!(ctx.workspace.display_name, "Example");
    assert_eq!(ctx.sandbox.trust_mode, TrustMode::Guarded);
    assert!(!ctx.cancel_token.cancelled());
    let copy = ctx.clone();
    assert_eq!(copy.workspace, ctx.workspace);
    assert_eq!(copy.sandbox, ctx.sandbox);
    ctx.cancel_token.cancel();
    assert!(copy.cancel_token.cancelled());
    let schema = ToolSchema::new("smoke", "Smoke-test tool", object());
    assert_eq!(schema.name, "smoke");
    assert_eq!(schema.json_schema, object());
    let outcome = ToolOutcome::new("did the thing", object(), Vec::new());
    assert_eq!(outcome.clone(), outcome);
    assert_eq!(outcome.summary, "did the thing");
    assert_eq!(ToolId::new("apply_edits").to_string(), "apply_edits");
    assert_eq!(SafetyClass::Safe, SafetyClass::Safe);
    assert_ne!(ApprovalDecision::Denied, ApprovalDecision::Timeout);
}

#[test]
fn conversations_keep_their_turns() {
    let at = Timestamp::from_timestamp(1_700_000_000, 5).expect("in range");
    let model = ModelRef::new("local", "m");
    let turn = Turn::new(
        TurnId::new_v4(),
        Role::Assistant,
        vec![Part::Text("hi".to_string())],
        at,
        Some(model.clone()),
    );
    let chat = Conversation::new(ChatId::new_v4(), Some("t".to_string()), vec![turn.clone()], None);
    assert_eq!(chat.turns, vec![turn]);
    let info = ModelInfo::new(model, "M", 8192, Capabilities::new(false, true, true));
    assert_eq!(info.context_window, 8192);
    assert!(info.capabilities.tool_calling && !info.capabilities.vision);
    assert_eq!(Capabilities::default(), Capabilities::new(false, false, false));
}

#[test]
fn generation_params_default_to_nothing_set() {
    let none = GenerationParams::default();
    assert_eq!(none, GenerationParams::new(None, None, None, Vec::new()));
    let half = SamplingValue { bits: 0.5f32.to_bits() };
    let some = GenerationParams::new(Some(half), None, Some(7), vec!["end".to_string()]);
    assert_eq!(some.temperature.map(|v| f32::from_bits(v.bits)), Some(0.5));
    assert_eq!(some.max_tokens, Some(7));
}

#[test]
fn sampling_values_compare_as_numbers() {
    let value = |v: f32| SamplingValue { bits: v.to_bits() };
    let with = |v: f32| GenerationParams::new(Some(value(v)), None, None, Vec::new());
    for a in [0.0f32, -0.0, 0.5, -0.5, 1.0, f32::INFINITY, f32::NEG_INFINITY, f32::NAN] {
        for b in [0.0f32, -0.0, 0.5, -0.5, 1.0, f32::INFINITY, f32::NEG_INFINITY, f32::NAN] {
            assert_eq!(value(a) == value(b), a == b, "{a} {b}");
            assert_eq!(with(a) == with(b), a == b, "{a} {b}");
        }
    }
}
