use vstd::prelude::*;

verus! {

/// Actual token usage returned from an LLM API response.
#[derive(Debug, Clone, PartialEq, Eq, Structural)]
pub struct TokenUsage {
    /// Number of tokens used in the input/prompt.
    pub input_tokens: u64,
    /// Number of tokens used in the output/completion.
    pub output_tokens: u64,
}

impl TokenUsage {
    /// The total number of tokens, as a mathematical integer.
    pub open spec fn spec_total(self) -> int {
        self.input_tokens + self.output_tokens
    }

    /// Whether the total number of tokens fits in a `u64`.
    pub open spec fn total_fits(self) -> bool {
        self.spec_total() <= u64::MAX
    }

    /// Returns the total number of tokens (input + output).
    pub fn total(&self) -> (t: u64)
        requires
            self.total_fits(),
        ensures
            t == self.spec_total(),
    {
        self.input_tokens + self.output_tokens
    }
}

/// Current budget state for a tenant.
///
/// The fraction of the budget that is used is not held here: it is a floating-point
/// value, computed from `used` and `limit` by the callers that report it.
#[derive(Debug, Clone, PartialEq, Eq)]
pub struct BudgetStatus {
    /// The unique identifier for the tenant.
    pub tenant_id: String,
    /// Number of tokens already used.
    pub used: u64,
    /// The maximum allowed token limit.
    pub limit: u64,
    /// Remaining tokens available (limit - used, and 0 once the limit is passed).
    pub remaining: u64,
}

/// `limit - used`, and 0 where `used` exceeds `limit`.
pub open spec fn remaining_of(limit: u64, used: u64) -> u64 {
    if used <= limit { (limit - used) as u64 } else { 0 }
}

impl BudgetStatus {
    /// The status of a tenant with the given limit and usage.
    pub open spec fn spec_of(tenant_id: String, limit: u64, used: u64) -> BudgetStatus {
        BudgetStatus { tenant_id, used, limit, remaining: remaining_of(limit, used) }
    }

    /// Builds the status of a tenant with the given limit and usage.
    pub fn of(tenant_id: String, limit: u64, used: u64) -> (st: BudgetStatus)
        ensures
            st == BudgetStatus::spec_of(tenant_id, limit, used),
            st.tenant_id == tenant_id,
            st.used == used,
            st.limit == limit,
            used >= limit ==> st.remaining == 0,
            used < limit ==> st.remaining == limit - used,
            st.remaining <= st.limit,
            st.used <= st.limit ==> st.used + st.remaining == st.limit,
    {
        let remaining = limit.saturating_sub(used);
        BudgetStatus { tenant_id, used, limit, remaining }
    }
}

/// A usage event recorded after an LLM call.
/// These events are handed to the flush sink for persistence.
#[derive(Debug, Clone, PartialEq, Eq)]
pub struct UsageEvent {
    /// The unique identifier for the tenant.
    pub tenant_id: String,
    /// Number of tokens used in the input.
    pub input_tokens: u64,
    /// Number of tokens used in the output.
    pub output_tokens: u64,
    /// Total tokens used in this event.
    pub total_tokens: u64,
    /// UTC Unix timestamp in seconds when the event was recorded.
    pub timestamp: u64,
    /// Optional model name used for the request (e.g., "gpt-4o").
    pub model: Option<String>,
}

impl UsageEvent {
    /// The event that records `usage` for `tenant_id` at `timestamp`.
    pub open spec fn spec_of(tenant_id: String, usage: TokenUsage, model: Option<String>, timestamp: u64) -> UsageEvent {
        UsageEvent {
            tenant_id,
            input_tokens: usage.input_tokens,
            output_tokens: usage.output_tokens,
            total_tokens: usage.spec_total() as u64,
            timestamp,
            model,
        }
    }

    /// Builds the event that records `usage` for `tenant_id` at `timestamp`.
    pub fn of(tenant_id: String, usage: &TokenUsage, model: Option<String>, timestamp: u64) -> (ev: UsageEvent)
        requires
            usage.total_fits(),
        ensures
            ev == UsageEvent::spec_of(tenant_id, *usage, model, timestamp),
            ev.tenant_id == tenant_id,
            ev.input_tokens == usage.input_tokens,
            ev.output_tokens == usage.output_tokens,
            ev.total_tokens == usage.input_tokens + usage.output_tokens,
            ev.timestamp == timestamp,
            ev.model == model,
            ev.total_tokens == ev.input_tokens + ev.output_tokens,
    {
        UsageEvent {
            tenant_id,
            input_tokens: usage.input_tokens,
            output_tokens: usage.output_tokens,
            total_tokens: usage.total(),
            timestamp,
            model,
        }
    }
}

/// What remains of a budget: nothing once the usage reaches the limit, and the limit minus
/// the usage before that; the status reports the tenant, usage and limit it was built from.
pub proof fn law_status_remaining(tenant_id: String, limit: u64, used: u64)
    ensures
        BudgetStatus::spec_of(tenant_id, limit, used).tenant_id == tenant_id,
        BudgetStatus::spec_of(tenant_id, limit, used).used == used,
        BudgetStatus::spec_of(tenant_id, limit, used).limit == limit,
        used >= limit ==> BudgetStatus::spec_of(tenant_id, limit, used).remaining == 0,
        used < limit ==> BudgetStatus::spec_of(tenant_id, limit, used).remaining + used == limit,
{
}

/// The event of a usage carries the tenant, the input and output counts as they were
/// given (never exchanged), their sum as the total, the model name and the timestamp.
pub proof fn law_event_fields(tenant_id: String, usage: TokenUsage, model: Option<String>, timestamp: u64)
    requires
        usage.total_fits(),
    ensures
        UsageEvent::spec_of(tenant_id, usage, model, timestamp) == (UsageEvent {
            tenant_id,
            input_tokens: usage.input_tokens,
            output_tokens: usage.output_tokens,
            total_tokens: (usage.input_tokens + usage.output_tokens) as u64,
            timestamp,
            model,
        }),
        UsageEvent::spec_of(tenant_id, usage, model, timestamp).total_tokens == usage.input_tokens
            + usage.output_tokens,
{
}

} // verus!
