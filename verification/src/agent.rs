//! The agent loop's state: its budget, its running totals and the snapshot that
//! the interface shows.

use vstd::prelude::*;

use crate::ai::domain::{Role, Usage};
use crate::id::ChatId;
use crate::sandbox::ApprovalReason;
use crate::time::{Duration, Timestamp};

verus! {

// ---------------------------------------------------------------------------
// Totals
// ---------------------------------------------------------------------------

/// The sum of two counts, or the greatest count where it does not fit.
pub open spec fn capped_sum(a: u32, b: u32) -> u32 {
    if a + b <= u32::MAX {
        (a + b) as u32
    } else {
        u32::MAX
    }
}

/// All tokens of a report.
pub open spec fn total_tokens_of(usage: Usage) -> u32 {
    capped_sum(capped_sum(usage.input_tokens, usage.output_tokens), usage.cached_input_tokens)
}

fn total_tokens(usage: &Usage) -> (res: u32)
    ensures
        res == total_tokens_of(*usage),
{
    usage.input_tokens.saturating_add(usage.output_tokens).saturating_add(usage.cached_input_tokens)
}

/// What a loop has used so far.
#[derive(Debug, Clone, PartialEq, Eq, Structural)]
#[non_exhaustive]
pub struct AccumulatedUsage {
    /// Tokens.
    pub usage: Usage,
    /// Completed turns.
    pub turn_count: u32,
    /// Dispatched tool calls.
    pub tool_call_count: u32,
    /// When the loop started.
    pub started_at: Timestamp,
    /// When the totals were last updated.
    pub last_event_at: Timestamp,
}

impl AccumulatedUsage {
    /// Nothing used, at the instant `now`.
    #[must_use]
    pub fn started_at(now: Timestamp) -> (res: Self)
        ensures
            res == (AccumulatedUsage {
                usage: Usage { input_tokens: 0, output_tokens: 0, cached_input_tokens: 0 },
                turn_count: 0,
                tool_call_count: 0,
                started_at: now,
                last_event_at: now,
            }),
    {
        Self {
            usage: Usage::default(),
            turn_count: 0,
            tool_call_count: 0,
            started_at: now,
            last_event_at: now,
        }
    }

    /// Adds a provider's report. Counts stop at the greatest value.
    pub fn add_usage(&mut self, delta: Usage, now: Timestamp)
        ensures
            *final(self) == (AccumulatedUsage {
                usage: Usage {
                    input_tokens: capped_sum(old(self).usage.input_tokens, delta.input_tokens),
                    output_tokens: capped_sum(old(self).usage.output_tokens, delta.output_tokens),
                    cached_input_tokens: capped_sum(
                        old(self).usage.cached_input_tokens,
                        delta.cached_input_tokens,
                    ),
                },
                last_event_at: now,
                ..*old(self)
            }),
    {
        self.usage = Usage::new(
            self.usage.input_tokens.saturating_add(delta.input_tokens),
            self.usage.output_tokens.saturating_add(delta.output_tokens),
            self.usage.cached_input_tokens.saturating_add(delta.cached_input_tokens),
        );
        self.last_event_at = now;
    }

    /// Counts a turn.
    pub fn record_turn(&mut self, now: Timestamp)
        ensures
            *final(self) == (AccumulatedUsage {
                turn_count: capped_sum(old(self).turn_count, 1),
                last_event_at: now,
                ..*old(self)
            }),
    {
        self.turn_count = self.turn_count.saturating_add(1);
        self.last_event_at = now;
    }

    /// Counts a tool call.
    pub fn record_tool_call(&mut self, now: Timestamp)
        ensures
            *final(self) == (AccumulatedUsage {
                tool_call_count: capped_sum(old(self).tool_call_count, 1),
                last_event_at: now,
                ..*old(self)
            }),
    {
        self.tool_call_count = self.tool_call_count.saturating_add(1);
        self.last_event_at = now;
    }

    /// The nanoseconds from the start to the last update; none where the clock
    /// went backwards.
    pub open spec fn elapsed_nanos(self) -> int {
        let nanos = self.last_event_at.nanos_since(self.started_at);
        if nanos < 0 {
            0
        } else {
            nanos
        }
    }

    /// The time from the start to the last update; none where the clock went
    /// backwards.
    #[must_use]
    pub fn elapsed(&self) -> (res: Duration)
        ensures
            res.nanos == self.elapsed_nanos(),
    {
        self.last_event_at.saturating_since(&self.started_at)
    }
}

// ---------------------------------------------------------------------------
// Budgets
// ---------------------------------------------------------------------------

/// What a budget can limit.
#[derive(Debug, Clone, Copy, PartialEq, Eq, Hash, Structural)]
pub enum BudgetDimension {
    /// The number of turns.
    Turns,
    /// The number of tokens of all kinds.
    Tokens,
    /// The number of tool calls.
    ToolCalls,
    /// The time since the start.
    WallClock,
}

impl BudgetDimension {
    /// The place in the order in which limits are checked.
    pub open spec fn rank(self) -> nat {
        match self {
            BudgetDimension::Turns => 0,
            BudgetDimension::Tokens => 1,
            BudgetDimension::ToolCalls => 2,
            BudgetDimension::WallClock => 3,
        }
    }
}

/// The limits of a loop. What has no limit is not checked.
#[derive(Debug, Clone, PartialEq, Eq, Structural)]
#[non_exhaustive]
pub struct AgentLoopBudget {
    /// The most turns.
    pub max_turns: Option<u32>,
    /// The most tokens of all kinds.
    pub max_total_tokens: Option<u32>,
    /// The longest time since the start.
    pub max_wall_clock: Option<Duration>,
    /// The most tool calls.
    pub max_tool_calls: Option<u32>,
}

impl AgentLoopBudget {
    /// The given limits.
    #[must_use]
    pub fn new(
        max_turns: Option<u32>,
        max_total_tokens: Option<u32>,
        max_wall_clock: Option<Duration>,
        max_tool_calls: Option<u32>,
    ) -> (res: Self)
        ensures
            res == (AgentLoopBudget {
                max_turns,
                max_total_tokens,
                max_wall_clock,
                max_tool_calls,
            }),
    {
        Self { max_turns, max_total_tokens, max_wall_clock, max_tool_calls }
    }

    /// No limits.
    #[must_use]
    #[verifier::allow_in_spec]
    pub fn unconstrained() -> Self
        returns
            (AgentLoopBudget {
                max_turns: None,
                max_total_tokens: None,
                max_wall_clock: None,
                max_tool_calls: None,
            }),
    {
        AgentLoopBudget {
            max_turns: None,
            max_total_tokens: None,
            max_wall_clock: None,
            max_tool_calls: None,
        }
    }

    /// Whether the limit on one dimension is set and reached.
    pub open spec fn reached(self, dimension: BudgetDimension, usage: AccumulatedUsage) -> bool {
        match dimension {
            BudgetDimension::Turns => self.max_turns is Some && usage.turn_count
                >= self.max_turns->0,
            BudgetDimension::Tokens => self.max_total_tokens is Some && total_tokens_of(usage.usage)
                >= self.max_total_tokens->0,
            BudgetDimension::ToolCalls => self.max_tool_calls is Some && usage.tool_call_count
                >= self.max_tool_calls->0,
            BudgetDimension::WallClock => self.max_wall_clock is Some && usage.elapsed_nanos()
                >= (self.max_wall_clock->0).nanos,
        }
    }

    /// The first dimension, in the order turns, tokens, tool calls, time, whose
    /// limit is reached.
    pub open spec fn first_reached(self, usage: AccumulatedUsage) -> Option<BudgetDimension> {
        if self.reached(BudgetDimension::Turns, usage) {
            Some(BudgetDimension::Turns)
        } else if self.reached(BudgetDimension::Tokens, usage) {
            Some(BudgetDimension::Tokens)
        } else if self.reached(BudgetDimension::ToolCalls, usage) {
            Some(BudgetDimension::ToolCalls)
        } else if self.reached(BudgetDimension::WallClock, usage) {
            Some(BudgetDimension::WallClock)
        } else {
            None
        }
    }

    /// The first dimension whose limit is reached, if any is. The order of the
    /// checks is turns, tokens, tool calls, time.
    #[must_use]
    pub fn is_exhausted(&self, usage: &AccumulatedUsage) -> (res: Option<BudgetDimension>)
        ensures
            res == self.first_reached(*usage),
    {
        if let Some(cap) = self.max_turns {
            if usage.turn_count >= cap {
                return Some(BudgetDimension::Turns);
            }
        }
        if let Some(cap) = self.max_total_tokens {
            if total_tokens(&usage.usage) >= cap {
                return Some(BudgetDimension::Tokens);
            }
        }
        if let Some(cap) = self.max_tool_calls {
            if usage.tool_call_count >= cap {
                return Some(BudgetDimension::ToolCalls);
            }
        }
        if let Some(cap) = self.max_wall_clock {
            if usage.elapsed().nanos >= cap.nanos {
                return Some(BudgetDimension::WallClock);
            }
        }
        None
    }
}

impl Default for AgentLoopBudget {
    fn default() -> (res: Self)
        ensures
            res == AgentLoopBudget::unconstrained(),
    {
        AgentLoopBudget::unconstrained()
    }
}

/// A budget without limits is never exhausted.
pub proof fn law_unconstrained_never_exhausts(usage: AccumulatedUsage)
    ensures
        AgentLoopBudget::unconstrained().first_reached(usage) is None,
{
}

/// A budget is exhausted exactly when some limit is reached, and what is
/// reported is a limit that is reached with none before it in the order.
pub proof fn law_exhaustion_is_reported(budget: AgentLoopBudget, usage: AccumulatedUsage)
    ensures
        budget.first_reached(usage) is Some <==> exists|d: BudgetDimension| #[trigger]
            budget.reached(d, usage),
        budget.first_reached(usage) is Some ==> budget.reached(
            budget.first_reached(usage)->0,
            usage,
        ),
        forall|d: BudgetDimension|
            budget.first_reached(usage) is Some && d.rank() < (budget.first_reached(
                usage,
            )->0).rank() ==> !#[trigger] budget.reached(d, usage),
{
    if exists|d: BudgetDimension| #[trigger] budget.reached(d, usage) {
        let d = choose|d: BudgetDimension| #[trigger] budget.reached(d, usage);
        match d {
            BudgetDimension::Turns => {},
            BudgetDimension::Tokens => {},
            BudgetDimension::ToolCalls => {},
            BudgetDimension::WallClock => {},
        }
    }
}

/// Using more never makes a reached limit unreached: counts that only grow and
/// time that only passes keep an exhausted budget exhausted.
pub proof fn law_exhaustion_is_stable(
    budget: AgentLoopBudget,
    before: AccumulatedUsage,
    after: AccumulatedUsage,
)
    requires
        before.turn_count <= after.turn_count,
        before.tool_call_count <= after.tool_call_count,
        before.usage.input_tokens <= after.usage.input_tokens,
        before.usage.output_tokens <= after.usage.output_tokens,
        before.usage.cached_input_tokens <= after.usage.cached_input_tokens,
        before.elapsed_nanos() <= after.elapsed_nanos(),
        budget.first_reached(before) is Some,
    ensures
        budget.first_reached(after) is Some,
{
}

// ---------------------------------------------------------------------------
// Status
// ---------------------------------------------------------------------------

/// Why a loop ended.
#[derive(Debug, Clone, PartialEq, Eq)]
#[non_exhaustive]
pub enum CompletionReason {
    /// The provider was done and no tool call was pending.
    ProviderDone,
    /// The user cancelled.
    UserCancelled,
    /// A limit of the budget was reached.
    BudgetExhausted(BudgetDimension),
    /// Something failed.
    Error(String),
}

/// What a loop is doing.
#[derive(Debug, Clone, PartialEq, Eq)]
#[non_exhaustive]
pub enum LoopStatus {
    /// Nothing.
    Idle,
    /// It processes turns.
    Running,
    /// It waits for the user's approval.
    AwaitingApproval,
    /// It winds down after a cancellation.
    Cancelling,
    /// It has ended.
    Completed(CompletionReason),
}

/// How long an injected instruction applies.
#[derive(Debug, Clone, Copy, PartialEq, Eq, Structural)]
#[non_exhaustive]
pub enum InjectionScope {
    /// For the next turn.
    SingleTurn,
    /// Until the loop ends.
    UntilLoopComplete,
}

/// An instruction put into a running loop.
#[derive(Debug, Clone, PartialEq, Eq)]
#[non_exhaustive]
pub struct InjectedInstruction {
    /// Its identity within the loop.
    pub id: String,
    /// Who it speaks as.
    pub role: Role,
    /// What it says.
    pub content: String,
    /// How long it applies.
    pub scope: InjectionScope,
}

impl InjectedInstruction {
    /// An instruction with the given fields.
    #[must_use]
    pub fn new(id: &str, role: Role, content: &str, scope: InjectionScope) -> (res: Self)
        ensures
            res.id@ == id@,
            res.role == role,
            res.content@ == content@,
            res.scope == scope,
    {
        Self { id: id.to_owned(), role, content: content.to_owned(), scope }
    }
}

/// The state of one chat's loop.
#[derive(Debug, Clone, PartialEq, Eq)]
#[non_exhaustive]
pub struct AgentLoopState {
    /// The chat.
    pub chat_id: ChatId,
    /// What the loop is doing.
    pub status: LoopStatus,
    /// Its limits.
    pub budget: AgentLoopBudget,
    /// What it has used.
    pub usage: AccumulatedUsage,
    /// What the user is asked, while the loop waits for approval.
    pub pending_approval: Option<ApprovalReason>,
    /// The injected instructions that still apply.
    pub injected_instructions: Vec<InjectedInstruction>,
}

impl AgentLoopState {
    /// A state with the given fields.
    #[must_use]
    pub fn new(
        chat_id: ChatId,
        status: LoopStatus,
        budget: AgentLoopBudget,
        usage: AccumulatedUsage,
        pending_approval: Option<ApprovalReason>,
        injected_instructions: Vec<InjectedInstruction>,
    ) -> (res: Self)
        ensures
            res == (AgentLoopState {
                chat_id,
                status,
                budget,
                usage,
                pending_approval,
                injected_instructions,
            }),
    {
        Self { chat_id, status, budget, usage, pending_approval, injected_instructions }
    }

    /// An idle loop that has used nothing.
    #[must_use]
    pub fn fresh(chat_id: ChatId, budget: AgentLoopBudget, now: Timestamp) -> (res: Self)
        ensures
            res.chat_id == chat_id,
            res.status == LoopStatus::Idle,
            res.budget == budget,
            res.usage == (AccumulatedUsage {
                usage: Usage { input_tokens: 0, output_tokens: 0, cached_input_tokens: 0 },
                turn_count: 0,
                tool_call_count: 0,
                started_at: now,
                last_event_at: now,
            }),
            res.pending_approval is None,
            res.injected_instructions@.len() == 0,
    {
        Self::new(
            chat_id,
            LoopStatus::Idle,
            budget,
            AccumulatedUsage::started_at(now),
            None,
            Vec::new(),
        )
    }
}

} // verus!
