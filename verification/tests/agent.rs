use openspace::agent::{
    AccumulatedUsage, AgentLoopBudget, AgentLoopState, BudgetDimension, CompletionReason,
    InjectedInstruction, InjectionScope, LoopStatus,
};
use openspace::ai::domain::{Role, Usage};
use openspace::id::ChatId;
use openspace::time::{Duration, Timestamp};

fn fixed_now() -> Timestamp {
    Timestamp::from_timestamp(1_700_000_000, 0).expect("timestamp is in chrono's representable range")
}

fn fixed_later(offset_secs: i64) -> Timestamp {
    Timestamp::from_timestamp(1_700_000_000 + offset_secs, 0)
        .expect("timestamp is in chrono's representable range")
}

#[test]
fn add_usage_sums_and_bumps_last_event() {
    let mut acc = AccumulatedUsage::started_at(fixed_now());
    acc.add_usage(Usage::new(10, 5, 2), fixed_later(3));
    assert_eq!(acc.usage, Usage::new(10, 5, 2));
    assert_eq!(acc.last_event_at, fixed_later(3));
    acc.add_usage(Usage::new(1, 1, 1), fixed_later(7));
    assert_eq!(acc.usage, Usage::new(11, 6, 3));
    assert_eq!(acc.last_event_at, fixed_later(7));
}

#[test]
fn record_helpers_bump_counters_and_event_stamp() {
    let mut acc = AccumulatedUsage::started_at(fixed_now());
    acc.record_turn(fixed_later(1));
    acc.record_turn(fixed_later(2));
    acc.record_tool_call(fixed_later(3));
    assert_eq!(acc.turn_count, 2);
    assert_eq!(acc.tool_call_count, 1);
    assert_eq!(acc.last_event_at, fixed_later(3));
}

#[test]
fn elapsed_reports_gap_and_clamps_negative() {
    let mut acc = AccumulatedUsage::started_at(fixed_now());
    acc.last_event_at = fixed_later(60);
    assert_eq!(acc.elapsed(), Duration::from_secs(60));

    acc.last_event_at = fixed_later(-5);
    assert_eq!(acc.elapsed(), Duration::zero());
}

fn turns_exhausted() -> (AgentLoopBudget, AccumulatedUsage) {
    let budget = AgentLoopBudget::new(
        Some(2),
        Some(1_000),
        Some(Duration::from_secs(60)),
        Some(5),
    );
    let mut usage = AccumulatedUsage::started_at(fixed_now());
    usage.turn_count = 2;
    usage.usage = Usage::new(1_000, 0, 0);
    usage.tool_call_count = 5;
    usage.last_event_at = fixed_later(60);
    (budget, usage)
}

#[test]
fn is_exhausted_returns_turns_first_when_every_axis_tripped() {
    let (b, u) = turns_exhausted();
    assert_eq!(b.is_exhausted(&u), Some(BudgetDimension::Turns));
}

#[test]
fn is_exhausted_returns_tokens_when_turns_under_cap() {
    let (mut b, mut u) = turns_exhausted();
    u.turn_count = 1;
    b.max_turns = Some(2);
    assert_eq!(b.is_exhausted(&u), Some(BudgetDimension::Tokens));
}

#[test]
fn is_exhausted_returns_tool_calls_when_turns_and_tokens_under_cap() {
    let (mut b, mut u) = turns_exhausted();
    u.turn_count = 0;
    u.usage = Usage::new(0, 0, 0);
    b.max_turns = Some(2);
    b.max_total_tokens = Some(1_000);
    assert_eq!(b.is_exhausted(&u), Some(BudgetDimension::ToolCalls));
}

#[test]
fn is_exhausted_returns_wall_clock_when_other_axes_under_cap() {
    let (mut b, mut u) = turns_exhausted();
    u.turn_count = 0;
    u.usage = Usage::new(0, 0, 0);
    u.tool_call_count = 0;
    b.max_turns = Some(2);
    b.max_total_tokens = Some(1_000);
    b.max_tool_calls = Some(5);
    assert_eq!(b.is_exhausted(&u), Some(BudgetDimension::WallClock));
}

#[test]
fn is_exhausted_returns_none_when_every_axis_under_cap() {
    let budget = AgentLoopBudget::new(
        Some(10),
        Some(10_000),
        Some(Duration::from_secs(3_600)),
        Some(50),
    );
    let usage = AccumulatedUsage::started_at(fixed_now());
    assert_eq!(budget.is_exhausted(&usage), None);
}

#[test]
fn is_exhausted_skips_unconstrained_axes() {
    let budget = AgentLoopBudget::new(None, Some(10), None, None);
    let mut usage = AccumulatedUsage::started_at(fixed_now());
    usage.turn_count = 100;
    usage.usage = Usage::new(20, 0, 0);
    assert_eq!(budget.is_exhausted(&usage), Some(BudgetDimension::Tokens));
}

#[test]
fn unconstrained_budget_never_exhausts() {
    let budget = AgentLoopBudget::unconstrained();
    let mut usage = AccumulatedUsage::started_at(fixed_now());
    usage.turn_count = u32::MAX;
    usage.tool_call_count = u32::MAX;
    usage.usage = Usage::new(u32::MAX, u32::MAX, u32::MAX);
    usage.last_event_at = fixed_later(i64::from(i32::MAX));
    assert_eq!(budget.is_exhausted(&usage), None);
}

#[test]
fn counters_saturate() {
    let mut acc = AccumulatedUsage::started_at(fixed_now());
    acc.usage = Usage::new(u32::MAX, 1, 0);
    acc.turn_count = u32::MAX;
    acc.tool_call_count = u32::MAX;
    acc.add_usage(Usage::new(1, 1, 1), fixed_later(1));
    acc.record_turn(fixed_later(2));
    acc.record_tool_call(fixed_later(3));
    assert_eq!(acc.usage, Usage::new(u32::MAX, 2, 1));
    assert_eq!(acc.turn_count, u32::MAX);
    assert_eq!(acc.tool_call_count, u32::MAX);
}

#[test]
fn loop_status_match_uses_wildcard_arm() {
    let statuses = [
        LoopStatus::Idle,
        LoopStatus::Running,
        LoopStatus::AwaitingApproval,
        LoopStatus::Cancelling,
        LoopStatus::Completed(CompletionReason::ProviderDone),
        LoopStatus::Completed(CompletionReason::UserCancelled),
        LoopStatus::Completed(CompletionReason::BudgetExhausted(BudgetDimension::Turns)),
        LoopStatus::Completed(CompletionReason::Error("boom".to_string())),
    ];
    for s in statuses {
        #[allow(unreachable_patterns)]
        let label = match s {
            LoopStatus::Idle => "idle",
            LoopStatus::Running => "running",
            LoopStatus::AwaitingApproval => "approval",
            LoopStatus::Cancelling => "cancel",
            LoopStatus::Completed(_) => "done",
            _ => "unknown",
        };
        assert!(matches!(
            label,
            "idle" | "running" | "approval" | "cancel" | "done"
        ));
    }
}

#[test]
fn fresh_state_starts_from_canonical_zero() {
    let chat = ChatId::new_v4();
    let budget = AgentLoopBudget::unconstrained();
    let state = AgentLoopState::fresh(chat, budget.clone(), fixed_now());
    assert_eq!(state.chat_id, chat);
    assert_eq!(state.status, LoopStatus::Idle);
    assert_eq!(state.budget, budget);
    assert_eq!(state.usage.turn_count, 0);
    assert_eq!(state.usage.tool_call_count, 0);
    assert_eq!(state.usage.started_at, fixed_now());
    assert_eq!(state.usage.last_event_at, fixed_now());
    assert!(state.pending_approval.is_none());
    assert!(state.injected_instructions.is_empty());
}

#[test]
fn instructions_keep_their_fields() {
    let i = InjectedInstruction::new("inj-2", Role::System, "be concise", InjectionScope::UntilLoopComplete);
    assert_eq!(i.id, "inj-2");
    assert_eq!(i.role, Role::System);
    assert_eq!(i.content, "be concise");
    assert_eq!(i.scope, InjectionScope::UntilLoopComplete);
}
