//! Model-request traces: their stored names, costs, loop roll-ups and the
//! dashboard windows.
use vstd::prelude::*;

use crate::text::{contains_text, text_contains, text_eq};

verus! {

/// Whether a traced request succeeded.
#[derive(Debug, Clone, Copy, PartialEq, Eq, Structural)]
pub enum LlmTraceStatus {
    Succeeded,
    Failed,
}

/// The OpenTelemetry span kind of a trace.
#[derive(Debug, Clone, Copy, PartialEq, Eq, Structural)]
pub enum LlmTraceSpanKind {
    Client,
    Internal,
}

/// How an agent loop ended.
#[derive(Debug, Clone, Copy, PartialEq, Eq, Structural)]
pub enum LlmTraceLoopStatus {
    Completed,
    Failed,
    Partial,
}

/// The time range a dashboard covers.
#[derive(Debug, Clone, Copy, PartialEq, Eq, Structural)]
pub enum LlmTraceDashboardRange {
    Today,
    Week,
    Month,
}

/// The stored name of a trace status.
pub open spec fn trace_status_name(s: LlmTraceStatus) -> Seq<char> {
    match s {
        LlmTraceStatus::Succeeded => "succeeded"@,
        LlmTraceStatus::Failed => "failed"@,
    }
}

/// The trace status stored as `raw`; anything but `failed` reads as a success.
pub open spec fn parse_trace_status(raw: Seq<char>) -> LlmTraceStatus {
    if raw == "failed"@ {
        LlmTraceStatus::Failed
    } else {
        LlmTraceStatus::Succeeded
    }
}

/// The stored name of a span kind.
pub open spec fn span_kind_name(k: LlmTraceSpanKind) -> Seq<char> {
    match k {
        LlmTraceSpanKind::Client => "CLIENT"@,
        LlmTraceSpanKind::Internal => "INTERNAL"@,
    }
}

/// The span kind stored as `raw`; anything but `INTERNAL` or `internal` reads as a client span.
pub open spec fn parse_span_kind(raw: Seq<char>) -> LlmTraceSpanKind {
    if raw == "INTERNAL"@ || raw == "internal"@ {
        LlmTraceSpanKind::Internal
    } else {
        LlmTraceSpanKind::Client
    }
}

/// The stored name of a loop status.
pub open spec fn loop_status_name(s: LlmTraceLoopStatus) -> Seq<char> {
    match s {
        LlmTraceLoopStatus::Completed => "completed"@,
        LlmTraceLoopStatus::Failed => "failed"@,
        LlmTraceLoopStatus::Partial => "partial"@,
    }
}

/// The loop status stored as `raw`; anything unknown reads as completed.
pub open spec fn parse_loop_status(raw: Seq<char>) -> LlmTraceLoopStatus {
    if raw == "failed"@ {
        LlmTraceLoopStatus::Failed
    } else if raw == "partial"@ {
        LlmTraceLoopStatus::Partial
    } else {
        LlmTraceLoopStatus::Completed
    }
}

/// The name of a dashboard range.
pub open spec fn dashboard_range_name(r: LlmTraceDashboardRange) -> Seq<char> {
    match r {
        LlmTraceDashboardRange::Today => "today"@,
        LlmTraceDashboardRange::Week => "week"@,
        LlmTraceDashboardRange::Month => "month"@,
    }
}

/// The dashboard range named `raw`; anything unknown reads as a month.
pub open spec fn parse_dashboard_range(raw: Seq<char>) -> LlmTraceDashboardRange {
    if raw == "today"@ {
        LlmTraceDashboardRange::Today
    } else if raw == "week"@ {
        LlmTraceDashboardRange::Week
    } else {
        LlmTraceDashboardRange::Month
    }
}

impl LlmTraceStatus {
    /// The stored name.
    pub fn as_str(&self) -> (r: &'static str)
        ensures
            r@ == trace_status_name(*self),
    {
        match self {
            LlmTraceStatus::Succeeded => "succeeded",
            LlmTraceStatus::Failed => "failed",
        }
    }

    /// Reads a stored name.
    pub fn from_str(value: &str) -> (r: Self)
        ensures
            r == parse_trace_status(value@),
    {
        if text_eq(value, "failed") {
            LlmTraceStatus::Failed
        } else {
            LlmTraceStatus::Succeeded
        }
    }
}

impl LlmTraceSpanKind {
    /// The stored name.
    pub fn as_str(&self) -> (r: &'static str)
        ensures
            r@ == span_kind_name(*self),
    {
        match self {
            LlmTraceSpanKind::Client => "CLIENT",
            LlmTraceSpanKind::Internal => "INTERNAL",
        }
    }

    /// Reads a stored name.
    pub fn from_str(value: &str) -> (r: Self)
        ensures
            r == parse_span_kind(value@),
    {
        if text_eq(value, "INTERNAL") || text_eq(value, "internal") {
            LlmTraceSpanKind::Internal
        } else {
            LlmTraceSpanKind::Client
        }
    }
}

impl LlmTraceLoopStatus {
    /// The stored name.
    pub fn as_str(&self) -> (r: &'static str)
        ensures
            r@ == loop_status_name(*self),
    {
        match self {
            LlmTraceLoopStatus::Completed => "completed",
            LlmTraceLoopStatus::Failed => "failed",
            LlmTraceLoopStatus::Partial => "partial",
        }
    }

    /// Reads a stored name.
    pub fn from_str(value: &str) -> (r: Self)
        ensures
            r == parse_loop_status(value@),
    {
        if text_eq(value, "failed") {
            LlmTraceLoopStatus::Failed
        } else if text_eq(value, "partial") {
            LlmTraceLoopStatus::Partial
        } else {
            LlmTraceLoopStatus::Completed
        }
    }
}

impl LlmTraceDashboardRange {
    /// Reads a range name.
    pub fn from_str(value: &str) -> (r: Self)
        ensures
            r == parse_dashboard_range(value@),
    {
        if text_eq(value, "today") {
            LlmTraceDashboardRange::Today
        } else if text_eq(value, "week") {
            LlmTraceDashboardRange::Week
        } else {
            LlmTraceDashboardRange::Month
        }
    }

    /// The range name.
    pub fn as_str(&self) -> (r: &'static str)
        ensures
            r@ == dashboard_range_name(*self),
    {
        match self {
            LlmTraceDashboardRange::Today => "today",
            LlmTraceDashboardRange::Week => "week",
            LlmTraceDashboardRange::Month => "month",
        }
    }
}

/// Law: every trace status, span kind, loop status and dashboard range reads
/// back as itself from its stored name.
pub proof fn law_trace_names_round_trip(
    s: LlmTraceStatus,
    k: LlmTraceSpanKind,
    l: LlmTraceLoopStatus,
    r: LlmTraceDashboardRange,
)
    ensures
        parse_trace_status(trace_status_name(s)) == s,
        parse_span_kind(span_kind_name(k)) == k,
        parse_loop_status(loop_status_name(l)) == l,
        parse_dashboard_range(dashboard_range_name(r)) == r,
{
    reveal_strlit("succeeded");
    reveal_strlit("failed");
    reveal_strlit("CLIENT");
    reveal_strlit("INTERNAL");
    reveal_strlit("internal");
    reveal_strlit("completed");
    reveal_strlit("partial");
    reveal_strlit("today");
    reveal_strlit("week");
    reveal_strlit("month");
    assert("succeeded"@.len() != "failed"@.len());
    assert("CLIENT"@[0] != "INTERNAL"@[0] && "CLIENT"@[0] != "internal"@[0]);
    assert("completed"@.len() != "failed"@.len() && "completed"@[0] != "partial"@[0]);
    assert("partial"@[0] != "failed"@[0]);
    assert("month"@[0] != "today"@[0] && "month"@[0] != "week"@[0] && "today"@[0] != "week"@[0]);
}

/// One traced request as a loop lists it.
#[derive(Debug, Clone, PartialEq, Eq)]
pub struct LlmTraceListItem {
    pub id: String,
    pub trace_id: String,
    pub span_id: String,
    pub parent_span_id: Option<String>,
    pub root_span_id: String,
    pub operation_name: String,
    pub span_kind: LlmTraceSpanKind,
    pub turn_id: String,
    pub run_id: String,
    pub request_kind: String,
    pub step_index: u32,
    pub provider: String,
    pub protocol: String,
    pub model: String,
    pub endpoint_path: String,
    pub status: LlmTraceStatus,
    pub stop_reason: Option<String>,
    pub status_code: Option<u16>,
    pub started_at_ms: u64,
    pub duration_ms: Option<u64>,
    pub total_tokens: Option<u64>,
    pub cached_tokens: Option<u64>,
    pub user_message: Option<String>,
    pub error: Option<String>,
}

/// One agent loop: the requests that share a trace identifier, rolled up.
#[derive(Debug, Clone, PartialEq, Eq)]
pub struct LlmTraceLoopItem {
    pub id: String,
    pub trace_id: String,
    pub request_kind: String,
    pub turn_id: String,
    pub run_id: String,
    pub root_span_id: String,
    pub model: String,
    pub protocol: String,
    pub endpoint_path: String,
    pub latest_started_at_ms: u64,
    pub started_at_ms: u64,
    pub finished_at_ms: Option<u64>,
    pub duration_ms: Option<u64>,
    pub total_tokens: u64,
    pub total_cached_tokens: u64,
    pub llm_span_count: u32,
    pub tool_span_count: u32,
    pub failed_tool_count: u32,
    pub final_status: LlmTraceLoopStatus,
    pub user_message: Option<String>,
    pub latest_error: Option<String>,
    pub final_span_id: Option<String>,
    pub traces: Vec<LlmTraceListItem>,
}

/// One page of agent loops.
#[derive(Debug, Clone, PartialEq, Eq)]
pub struct LlmTraceLoopPage {
    pub items: Vec<LlmTraceLoopItem>,
    pub total_items: u64,
    pub page: usize,
    pub page_size: usize,
}

/// The page number, counted from 1, that starts at `offset` with pages of `limit` items.
pub fn loop_page_number(limit: usize, offset: usize) -> (r: usize)
    requires
        limit > 0,
        offset / limit < usize::MAX,
    ensures
        r == offset / limit + 1,
{
    offset / limit + 1
}

/// Prices of a model, in micro-dollars per million tokens.
#[derive(Debug, Clone, Copy, PartialEq, Eq)]
pub struct ModelPricing {
    pub input_micros_per_million: u64,
    pub cached_input_micros_per_million: u64,
    pub output_micros_per_million: u64,
}

/// The prices of a model: a "mini" model is priced lower than any other.
pub open spec fn pricing_for(model: Seq<char>) -> ModelPricing {
    if contains_text(model, "mini"@) {
        ModelPricing {
            input_micros_per_million: 250_000,
            cached_input_micros_per_million: 25_000,
            output_micros_per_million: 2_000_000,
        }
    } else {
        ModelPricing {
            input_micros_per_million: 1_250_000,
            cached_input_micros_per_million: 125_000,
            output_micros_per_million: 10_000_000,
        }
    }
}

/// The prices of a model.
pub fn model_pricing_for(model: &str) -> (r: ModelPricing)
    ensures
        r == pricing_for(model@),
{
    if text_contains(model, "mini") {
        ModelPricing {
            input_micros_per_million: 250_000,
            cached_input_micros_per_million: 25_000,
            output_micros_per_million: 2_000_000,
        }
    } else {
        ModelPricing {
            input_micros_per_million: 1_250_000,
            cached_input_micros_per_million: 125_000,
            output_micros_per_million: 10_000_000,
        }
    }
}

/// `v`, or 0 when absent.
pub open spec fn or_zero(v: Option<u64>) -> int {
    match v {
        Some(x) => x as int,
        None => 0,
    }
}

/// The estimated cost of a request in micro-dollars: cached input tokens
/// (at most all input tokens) at the cached price, the other input tokens and
/// the output tokens at their prices, rounded down and truncated to 64 bits.
pub open spec fn trace_cost_micros(
    model: Seq<char>,
    input_tokens: Option<u64>,
    output_tokens: Option<u64>,
    cached_tokens: Option<u64>,
) -> u64 {
    let p = pricing_for(model);
    let input = or_zero(input_tokens);
    let cached = if or_zero(cached_tokens) < input {
        or_zero(cached_tokens)
    } else {
        input
    };
    ((((input - cached) * p.input_micros_per_million + cached * p.cached_input_micros_per_million
        + or_zero(output_tokens) * p.output_micros_per_million) / 1_000_000) as u64)
}

proof fn lemma_product_bound(a: u64, b: u64)
    by (nonlinear_arith)
    requires
        b <= 10_000_000,
    ensures
        0 <= a * b <= 18446744073709551615 * 10_000_000,
{
}

/// The estimated cost of a request in micro-dollars.
pub fn estimate_trace_cost_micros(
    model: &str,
    input_tokens: Option<u64>,
    output_tokens: Option<u64>,
    cached_tokens: Option<u64>,
) -> (r: u64)
    ensures
        r == trace_cost_micros(model@, input_tokens, output_tokens, cached_tokens),
{
    let pricing = model_pricing_for(model);
    let input: u64 = match input_tokens {
        Some(v) => v,
        None => 0,
    };
    let output: u64 = match output_tokens {
        Some(v) => v,
        None => 0,
    };
    let cached_raw: u64 = match cached_tokens {
        Some(v) => v,
        None => 0,
    };
    let cached: u64 = if cached_raw < input {
        cached_raw
    } else {
        input
    };
    let billable: u64 = input - cached;
    proof {
        lemma_product_bound(billable, pricing.input_micros_per_million);
        lemma_product_bound(cached, pricing.cached_input_micros_per_million);
        lemma_product_bound(output, pricing.output_micros_per_million);
    }
    let total: u128 = (billable as u128) * (pricing.input_micros_per_million as u128)
        + (cached as u128) * (pricing.cached_input_micros_per_million as u128) + (output as u128)
        * (pricing.output_micros_per_million as u128);
    (total / 1_000_000) as u64
}

} // verus!
