use openspace::sandbox::{
    AccessLevel, ApprovalMode, ApprovalReason, EnvAction, EnvVarName, ExecutionStyle,
    NetworkPattern, PermissionPolicy, SandboxDecision, SandboxPolicy, TrustMode,
};
use openspace::tool::SafetyClass;

#[test]
fn trust_mode_enforces_blocklist_is_always_false() {
    for mode in [TrustMode::Guarded, TrustMode::Fast, TrustMode::Yolo] {
        assert!(!mode.enforces_blocklist(), "{mode:?}");
    }
}

#[test]
fn trust_mode_yolo_collapses_approval_for_every_safety_class() {
    for class in [
        SafetyClass::Safe,
        SafetyClass::RequiresApproval,
        SafetyClass::Destructive,
    ] {
        assert_eq!(
            TrustMode::Yolo.approval_for(class),
            ApprovalMode::Never,
            "Yolo + {class:?}"
        );
    }
}

#[test]
fn trust_mode_guarded_always_asks_for_destructive_and_approval_classes() {
    assert_eq!(
        TrustMode::Guarded.approval_for(SafetyClass::Destructive),
        ApprovalMode::Always,
    );
    assert_eq!(
        TrustMode::Guarded.approval_for(SafetyClass::RequiresApproval),
        ApprovalMode::Always,
    );
    assert_eq!(
        TrustMode::Guarded.approval_for(SafetyClass::Safe),
        ApprovalMode::OnDestructive,
    );
}

#[test]
fn trust_mode_execution_style() {
    assert_eq!(
        TrustMode::Guarded.execution_style(),
        ExecutionStyle::Interactive
    );
    assert_eq!(TrustMode::Fast.execution_style(), ExecutionStyle::Batched);
    assert_eq!(TrustMode::Yolo.execution_style(), ExecutionStyle::Batched);
}

fn policy(mode: TrustMode) -> SandboxPolicy {
    SandboxPolicy::with_trust_mode(mode)
}

fn path() -> &'static std::path::Path {
    std::path::Path::new("/workspace/file.txt")
}

#[test]
fn permission_matrix_guarded_read_allows() {
    assert_eq!(
        policy(TrustMode::Guarded).check_read(path()),
        SandboxDecision::Allow
    );
}

#[test]
fn permission_matrix_guarded_write_requires_approval() {
    assert!(matches!(
        policy(TrustMode::Guarded).check_write(path()),
        SandboxDecision::RequireApproval(_)
    ));
}

#[test]
fn permission_matrix_guarded_terminal_requires_approval() {
    assert!(matches!(
        policy(TrustMode::Guarded).check_terminal("ls"),
        SandboxDecision::RequireApproval(_)
    ));
}

#[test]
fn permission_matrix_guarded_network_requires_approval() {
    assert!(matches!(
        policy(TrustMode::Guarded).check_network("api.example.com", 443),
        SandboxDecision::RequireApproval(_)
    ));
}

#[test]
fn permission_matrix_fast_read_allows() {
    assert_eq!(
        policy(TrustMode::Fast).check_read(path()),
        SandboxDecision::Allow
    );
}

#[test]
fn permission_matrix_fast_write_allows() {
    assert_eq!(
        policy(TrustMode::Fast).check_write(path()),
        SandboxDecision::Allow
    );
}

#[test]
fn permission_matrix_fast_terminal_requires_approval() {
    assert!(matches!(
        policy(TrustMode::Fast).check_terminal("ls"),
        SandboxDecision::RequireApproval(_)
    ));
}

#[test]
fn permission_matrix_fast_network_requires_approval() {
    assert!(matches!(
        policy(TrustMode::Fast).check_network("api.example.com", 443),
        SandboxDecision::RequireApproval(_)
    ));
}

#[test]
fn permission_matrix_yolo_read_allows() {
    assert_eq!(
        policy(TrustMode::Yolo).check_read(path()),
        SandboxDecision::Allow
    );
}

#[test]
fn permission_matrix_yolo_write_allows() {
    assert_eq!(
        policy(TrustMode::Yolo).check_write(path()),
        SandboxDecision::Allow
    );
}

#[test]
fn permission_matrix_yolo_terminal_allows() {
    assert_eq!(
        policy(TrustMode::Yolo).check_terminal("rm -rf /tmp/x"),
        SandboxDecision::Allow
    );
}

#[test]
fn permission_matrix_yolo_network_allows() {
    assert_eq!(
        policy(TrustMode::Yolo).check_network("api.example.com", 443),
        SandboxDecision::Allow
    );
}

#[test]
fn permission_policy_override_makes_policy_more_strict() {
    let mut p = SandboxPolicy::with_trust_mode(TrustMode::Yolo);
    p.permissions.write = AccessLevel::Block;
    match p.check_write(path()) {
        SandboxDecision::Block(reason) => {
            assert!(reason.contains("filesystem write"), "reason: {reason}");
        }
        other => panic!("expected Block, got {other:?}"),
    }
}

#[test]
fn permission_policy_override_makes_policy_more_permissive() {
    let mut p = SandboxPolicy::with_trust_mode(TrustMode::Guarded);
    p.permissions.terminal = AccessLevel::Allow;
    assert_eq!(p.check_terminal("ls"), SandboxDecision::Allow);
}

#[test]
fn check_calls_are_deterministic_for_the_same_inputs() {
    let p = SandboxPolicy::with_trust_mode(TrustMode::Guarded);
    let a = p.check_network("api.example.com", 443);
    let b = p.check_network("api.example.com", 443);
    assert_eq!(a, b);
}

#[test]
fn network_allowlist_short_circuits_permissions() {
    let p = SandboxPolicy::new(
        TrustMode::Guarded,
        PermissionPolicy::new(
            AccessLevel::Block,
            AccessLevel::Block,
            AccessLevel::Block,
            AccessLevel::Block,
        ),
        vec![NetworkPattern::parse("api.example.com:443").expect("parse")],
        Vec::new(),
    );
    assert_eq!(
        p.check_network("api.example.com", 443),
        SandboxDecision::Allow
    );
    assert!(matches!(
        p.check_network("other.example.com", 443),
        SandboxDecision::Block(_)
    ));
}

#[test]
fn network_pattern_exact_host_and_port() {
    let p = NetworkPattern::parse("api.example.com:443").expect("parse");
    assert!(p.matches("api.example.com", 443));
    assert!(!p.matches("api.example.com", 80));
    assert!(!p.matches("other.example.com", 443));
}

#[test]
fn network_pattern_wildcard_subdomain_strict() {
    let p = NetworkPattern::parse("*.example.com").expect("parse");
    assert!(p.matches("api.example.com", 443));
    assert!(p.matches("a.b.example.com", 80));
    assert!(!p.matches("example.com", 443));
    assert!(!p.matches("notexample.com", 443));
}

#[test]
fn network_pattern_port_wildcard() {
    let p = NetworkPattern::parse("localhost:*").expect("parse");
    assert!(p.matches("localhost", 1));
    assert!(p.matches("localhost", 65535));
    assert!(!p.matches("127.0.0.1", 80));
}

#[test]
fn network_pattern_full_wildcard() {
    let p = NetworkPattern::parse("*").expect("parse");
    assert!(p.matches("anything.example.com", 443));
    assert!(p.matches("localhost", 0));
}

#[test]
fn network_pattern_missing_port_defaults_to_any() {
    let p = NetworkPattern::parse("api.example.com").expect("parse");
    assert!(p.matches("api.example.com", 443));
    assert!(p.matches("api.example.com", 80));
}

#[test]
fn network_pattern_rejects_bad_input() {
    assert!(NetworkPattern::parse(":443").is_err(), "empty host");
    assert!(NetworkPattern::parse("*.").is_err(), "empty suffix");
    assert!(
        NetworkPattern::parse("api.example.com:not-a-port").is_err(),
        "non-numeric port"
    );
}

#[test]
fn network_pattern_errors_quote_the_input() {
    let err = NetworkPattern::parse("a\"b:x").expect_err("must reject");
    let message = err.to_string();
    assert!(
        message.starts_with("invalid network pattern \"a\\\"b:x\": "),
        "got: {message}"
    );
    assert!(NetworkPattern::parse("host:65535").is_ok());
    assert!(NetworkPattern::parse("host:65536").is_err());
}

#[test]
fn blocked_and_questioned_operations_are_named() {
    let mut p = SandboxPolicy::with_trust_mode(TrustMode::Guarded);
    p.permissions.network = AccessLevel::Block;
    assert_eq!(
        p.check_network("h", 1),
        SandboxDecision::Block("network access blocked by sandbox policy".to_string())
    );
    match p.check_terminal("ls") {
        SandboxDecision::RequireApproval(reason) => assert!(reason.summary.contains("terminal")),
        other => panic!("expected RequireApproval, got {other:?}"),
    }
}

#[test]
fn env_var_names_are_kept() {
    let action = EnvAction::Prompt(EnvVarName::new("AWS_PROFILE"));
    assert_eq!(action, EnvAction::Prompt(EnvVarName::new("AWS_PROFILE")));
    assert_eq!(EnvVarName::new("PATH").as_str(), "PATH");
}

#[test]
fn approval_reason_constructors_match_field_layout() {
    let bare = ApprovalReason::new("summary");
    assert_eq!(bare.summary, "summary");
    assert!(bare.detail.is_none());

    let full = ApprovalReason::with_detail("summary", "long form");
    assert_eq!(full.summary, "summary");
    assert_eq!(full.detail.as_deref(), Some("long form"));
}

#[test]
fn sandbox_decision_is_allow_only_for_allow() {
    assert!(SandboxDecision::Allow.is_allow());
    assert!(!SandboxDecision::RequireApproval(ApprovalReason::new("x")).is_allow());
    assert!(!SandboxDecision::Block("x".into()).is_allow());
}
