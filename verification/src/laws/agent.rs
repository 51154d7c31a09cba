//! What holds of budgets and running totals.

use vstd::prelude::*;

use crate::agent::{AccumulatedUsage, AgentLoopBudget, AgentLoopState, BudgetDimension};
use crate::ai::domain::Usage;
use crate::id::ChatId;
use crate::time::{Duration, Timestamp};

verus! {

/// The token limit counts tokens of every kind: it is reached exactly when what was
/// read, produced and read from a cache, taken together, comes to it. A sum that no
/// count can hold counts as the greatest count.
pub proof fn law_every_token_counts(
    budget: AgentLoopBudget,
    usage: AccumulatedUsage,
    limit: u32,
    res: Option<BudgetDimension>,
)
    requires
        call_ensures(AgentLoopBudget::is_exhausted, (&budget, &usage), res),
        budget.max_total_tokens == Some(limit),
    ensures
        ({
            let sum = usage.usage.input_tokens + usage.usage.output_tokens
                + usage.usage.cached_input_tokens;
            &&& sum >= limit ==> res == Some(BudgetDimension::Turns) || res == Some(
                BudgetDimension::Tokens,
            )
            &&& sum < limit ==> res != Some(BudgetDimension::Tokens)
            &&& budget.max_turns is None ==> (res == Some(BudgetDimension::Tokens) <==> sum
                >= limit)
        }),
{
}

/// Each count has a limit of its own: a reported dimension has a limit, and what was
/// used of it comes to that limit; what is not reported as the first one, and stands
/// before it, does not.
pub proof fn law_reported_limit_is_reached(
    budget: AgentLoopBudget,
    usage: AccumulatedUsage,
    elapsed: Duration,
    res: Option<BudgetDimension>,
)
    requires
        call_ensures(AgentLoopBudget::is_exhausted, (&budget, &usage), res),
        call_ensures(AccumulatedUsage::elapsed, (&usage,), elapsed),
    ensures
        ({
            let turns = budget.max_turns matches Some(limit) && limit <= usage.turn_count;
            let tokens = budget.max_total_tokens matches Some(limit) && limit
                <= usage.usage.input_tokens + usage.usage.output_tokens
                + usage.usage.cached_input_tokens;
            let calls = budget.max_tool_calls matches Some(limit) && limit <= usage.tool_call_count;
            let clock = budget.max_wall_clock matches Some(limit) && limit.nanos <= elapsed.nanos;
            &&& res is None <==> !turns && !tokens && !calls && !clock
            &&& res == Some(BudgetDimension::Turns) <==> turns
            &&& res == Some(BudgetDimension::Tokens) <==> !turns && tokens
            &&& res == Some(BudgetDimension::ToolCalls) <==> !turns && !tokens && calls
            &&& res == Some(BudgetDimension::WallClock) <==> !turns && !tokens && !calls && clock
        }),
{
}

/// A loop that has used nothing is within every budget that allows for anything.
pub proof fn law_fresh_loop_is_within_budget(
    chat_id: ChatId,
    budget: AgentLoopBudget,
    now: Timestamp,
    state: AgentLoopState,
    res: Option<BudgetDimension>,
)
    requires
        call_ensures(AgentLoopState::fresh, (chat_id, budget, now), state),
        call_ensures(AgentLoopBudget::is_exhausted, (&state.budget, &state.usage), res),
        budget.max_turns matches Some(limit) ==> limit > 0,
        budget.max_total_tokens matches Some(limit) ==> limit > 0,
        budget.max_tool_calls matches Some(limit) ==> limit > 0,
        budget.max_wall_clock matches Some(limit) ==> limit.nanos > 0,
    ensures
        res is None,
        state.chat_id == chat_id,
        state.budget == budget,
        state.usage.started_at == now,
        state.usage.last_event_at == now,
        state.status is Idle,
        state.pending_approval is None,
        state.injected_instructions@.len() == 0,
{
}

/// A report adds to each count what it reports of it, up to the greatest count, and
/// moves the time of the last update. It counts neither as a turn nor as a tool call,
/// and does not move the start.
pub proof fn law_report_adds_up(usage: &mut AccumulatedUsage, delta: Usage, now: Timestamp)
    requires
        call_ensures(AccumulatedUsage::add_usage, (usage, delta, now), ()),
    ensures
        grows_by(old(usage).usage.input_tokens, delta.input_tokens, final(usage).usage.input_tokens),
        grows_by(
            old(usage).usage.output_tokens,
            delta.output_tokens,
            final(usage).usage.output_tokens,
        ),
        grows_by(
            old(usage).usage.cached_input_tokens,
            delta.cached_input_tokens,
            final(usage).usage.cached_input_tokens,
        ),
        final(usage).turn_count == old(usage).turn_count,
        final(usage).tool_call_count == old(usage).tool_call_count,
        final(usage).started_at == old(usage).started_at,
        final(usage).last_event_at == now,
{
}

/// Whether a count grows from `before` to `after` by `more`: either exactly, or up to
/// the greatest count where there is no room for more.
pub open spec fn grows_by(before: u32, more: u32, after: u32) -> bool {
    ||| after - before == more
    ||| after == u32::MAX && after - before < more
}

/// A turn is one turn more, and nothing else.
pub proof fn law_turn_counts_once(usage: &mut AccumulatedUsage, now: Timestamp)
    requires
        call_ensures(AccumulatedUsage::record_turn, (usage, now), ()),
    ensures
        grows_by(old(usage).turn_count, 1, final(usage).turn_count),
        final(usage).tool_call_count == old(usage).tool_call_count,
        final(usage).usage == old(usage).usage,
        final(usage).started_at == old(usage).started_at,
        final(usage).last_event_at == now,
{
}

/// A tool call is one tool call more, and nothing else.
pub proof fn law_tool_call_counts_once(usage: &mut AccumulatedUsage, now: Timestamp)
    requires
        call_ensures(AccumulatedUsage::record_tool_call, (usage, now), ()),
    ensures
        grows_by(old(usage).tool_call_count, 1, final(usage).tool_call_count),
        final(usage).turn_count == old(usage).turn_count,
        final(usage).usage == old(usage).usage,
        final(usage).started_at == old(usage).started_at,
        final(usage).last_event_at == now,
{
}

/// The last turn that a budget leaves spends it, and no turn before that one does.
pub proof fn law_last_turn_exhausts(
    budget: AgentLoopBudget,
    usage: &mut AccumulatedUsage,
    now: Timestamp,
    limit: u32,
    before: Option<BudgetDimension>,
    after: Option<BudgetDimension>,
)
    requires
        budget.max_turns == Some(limit),
        old(usage).turn_count + 1 == limit,
        call_ensures(AgentLoopBudget::is_exhausted, (&budget, &*old(usage)), before),
        call_ensures(AccumulatedUsage::record_turn, (usage, now), ()),
        call_ensures(AgentLoopBudget::is_exhausted, (&budget, &*final(usage)), after),
    ensures
        before != Some(BudgetDimension::Turns),
        after == Some(BudgetDimension::Turns),
{
}

/// Time runs from the start to the last update. Between two instants that are no leap
/// seconds it is the difference of their seconds and nanoseconds, and never negative.
pub proof fn law_elapsed_is_the_difference(usage: AccumulatedUsage, elapsed: Duration)
    requires
        call_ensures(AccumulatedUsage::elapsed, (&usage,), elapsed),
        usage.started_at.nanos() < 1_000_000_000,
        usage.last_event_at.nanos() < 1_000_000_000,
    ensures
        ({
            let from = usage.started_at.secs() * 1_000_000_000 + usage.started_at.nanos();
            let to = usage.last_event_at.secs() * 1_000_000_000 + usage.last_event_at.nanos();
            &&& from <= to ==> from + elapsed.nanos == to
            &&& from > to ==> elapsed.nanos == 0
        }),
{
}

} // verus!
