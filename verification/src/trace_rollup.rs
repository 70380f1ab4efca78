//! Incremental summaries over agent loops: what a changed loop adds to and
//! takes from the stored totals.
use vstd::prelude::*;

use crate::error::AiaStoreError;
use crate::text::{owned, push_text};
use crate::trace::LlmTraceLoopStatus;
use crate::trace_loop::LoopRollup;

verus! {

/// What the summaries read of one agent loop.
#[derive(Debug, Clone)]
pub struct LoopSummarySnapshot {
    pub trace_id: String,
    pub request_kind: String,
    pub session_id: String,
    pub model: String,
    pub latest_started_at_ms: u64,
    pub duration_ms: Option<u64>,
    pub total_input_tokens: u64,
    pub total_output_tokens: u64,
    pub total_tokens: u64,
    pub total_cached_tokens: u64,
    pub estimated_cost_micros: u64,
    pub lines_added: u64,
    pub lines_removed: u64,
    pub llm_span_count: u64,
    pub tool_span_count: u64,
    pub failed_tool_count: u64,
    pub final_status: LlmTraceLoopStatus,
}

/// The summary snapshot of a rolled-up loop.
pub fn snapshot_of_rollup(trace_id: &str, x: &LoopRollup) -> (r: LoopSummarySnapshot)
    ensures
        r.trace_id@ == trace_id@,
        r.request_kind == x.request_kind,
        r.session_id == x.session_id,
        r.model == x.model,
        r.latest_started_at_ms == x.latest_started_at_ms,
        r.duration_ms == x.duration_ms,
        r.total_input_tokens == x.total_input_tokens,
        r.total_output_tokens == x.total_output_tokens,
        r.total_tokens == x.total_tokens,
        r.total_cached_tokens == x.total_cached_tokens,
        r.estimated_cost_micros == x.estimated_cost_micros,
        r.lines_added == x.lines_added,
        r.lines_removed == x.lines_removed,
        r.llm_span_count == x.llm_span_count,
        r.tool_span_count == x.tool_span_count,
        r.failed_tool_count == x.failed_tool_count,
        r.final_status == x.final_status,
{
    LoopSummarySnapshot {
        trace_id: owned(trace_id),
        request_kind: x.request_kind.clone(),
        session_id: x.session_id.clone(),
        model: x.model.clone(),
        latest_started_at_ms: x.latest_started_at_ms,
        duration_ms: x.duration_ms,
        total_input_tokens: x.total_input_tokens,
        total_output_tokens: x.total_output_tokens,
        total_tokens: x.total_tokens,
        total_cached_tokens: x.total_cached_tokens,
        estimated_cost_micros: x.estimated_cost_micros,
        lines_added: x.lines_added,
        lines_removed: x.lines_removed,
        llm_span_count: x.llm_span_count as u64,
        tool_span_count: x.tool_span_count as u64,
        failed_tool_count: x.failed_tool_count as u64,
        final_status: x.final_status,
    }
}

/// The additive totals of one summary.
#[derive(Debug, Clone, Copy, PartialEq, Eq)]
pub struct SummaryCounts {
    pub total_requests: u64,
    pub failed_requests: u64,
    pub partial_requests: u64,
    pub total_llm_spans: u64,
    pub total_tool_spans: u64,
    pub requests_with_tools: u64,
    pub failed_tool_calls: u64,
    pub total_input_tokens: u64,
    pub total_output_tokens: u64,
    pub total_tokens: u64,
    pub total_cached_tokens: u64,
    pub total_duration_ms: u64,
    pub duration_sample_count: u64,
}

/// 1 for true, 0 for false.
pub fn bool_to_i64(value: bool) -> (r: i64)
    ensures
        r == (if value { 1int } else { 0int }),
{
    if value {
        1
    } else {
        0
    }
}

/// The loop failed.
pub fn loop_failed_request(loop_item: &LoopSummarySnapshot) -> (r: bool)
    ensures
        r == (loop_item.final_status == LlmTraceLoopStatus::Failed),
{
    match loop_item.final_status {
        LlmTraceLoopStatus::Failed => true,
        _ => false,
    }
}

/// The loop ended partially.
pub fn loop_partial_request(loop_item: &LoopSummarySnapshot) -> (r: bool)
    ensures
        r == (loop_item.final_status == LlmTraceLoopStatus::Partial),
{
    match loop_item.final_status {
        LlmTraceLoopStatus::Partial => true,
        _ => false,
    }
}

/// The loop called tools.
pub fn loop_has_tools(loop_item: &LoopSummarySnapshot) -> (r: bool)
    ensures
        r == (loop_item.tool_span_count > 0),
{
    loop_item.tool_span_count > 0
}

/// 1 for present, 0 for absent.
pub open spec fn presence(present: bool) -> int {
    if present {
        1
    } else {
        0
    }
}

/// How the number of loops changes: +1 for a new loop, -1 for a removed one.
pub fn loop_presence_delta(
    previous: Option<&LoopSummarySnapshot>,
    current: Option<&LoopSummarySnapshot>,
) -> (r: i64)
    ensures
        r == presence(current is Some) - presence(previous is Some),
{
    bool_to_i64(current.is_some()) - bool_to_i64(previous.is_some())
}

/// How a count of loops with some property changes.
pub fn bool_metric_delta(previous: Option<bool>, current: Option<bool>) -> (r: i64)
    ensures
        r == presence(current == Some(true)) - presence(previous == Some(true)),
{
    let c = match current {
        Some(v) => v,
        None => false,
    };
    let p = match previous {
        Some(v) => v,
        None => false,
    };
    bool_to_i64(c) - bool_to_i64(p)
}

/// `v`, or 0 when absent, reinterpreted as a signed 64-bit number.
pub open spec fn signed_or_zero(v: Option<u64>) -> int {
    match v {
        Some(x) => (x as i64) as int,
        None => 0,
    }
}

/// How a summed value changes.
pub fn value_delta(previous: Option<u64>, current: Option<u64>) -> (r: i64)
    requires
        i64::MIN <= signed_or_zero(current) - signed_or_zero(previous) <= i64::MAX,
    ensures
        r == signed_or_zero(current) - signed_or_zero(previous),
{
    let c: u64 = match current {
        Some(v) => v,
        None => 0,
    };
    let p: u64 = match previous {
        Some(v) => v,
        None => 0,
    };
    (c as i64) - (p as i64)
}

/// Adds a signed change to a stored total; a total below zero is refused.
pub fn apply_delta_u64(current: u64, delta: i64, field: &str) -> (r: Result<u64, AiaStoreError>)
    ensures
        match r {
            Ok(v) => current + delta >= 0 && v == (current + delta) as u64,
            Err(e) => current + delta < 0 && e@ == "summary field underflow: "@ + field@,
        },
{
    let next: i128 = (current as i128) + (delta as i128);
    if next < 0 {
        let mut message = owned("summary field underflow: ");
        push_text(&mut message, field);
        return Err(AiaStoreError::new(message));
    }
    Ok(next as u64)
}

/// The snapshot an optional reference points to.
pub open spec fn deref_opt(o: Option<&LoopSummarySnapshot>) -> Option<LoopSummarySnapshot> {
    match o {
        Some(s) => Some(*s),
        None => None,
    }
}

/// Field `k` (in declaration order, 0 to 12) of summary totals.
pub open spec fn counts_field(c: SummaryCounts, k: int) -> u64 {
    if k == 0 {
        c.total_requests
    } else if k == 1 {
        c.failed_requests
    } else if k == 2 {
        c.partial_requests
    } else if k == 3 {
        c.total_llm_spans
    } else if k == 4 {
        c.total_tool_spans
    } else if k == 5 {
        c.requests_with_tools
    } else if k == 6 {
        c.failed_tool_calls
    } else if k == 7 {
        c.total_input_tokens
    } else if k == 8 {
        c.total_output_tokens
    } else if k == 9 {
        c.total_tokens
    } else if k == 10 {
        c.total_cached_tokens
    } else if k == 11 {
        c.total_duration_ms
    } else {
        c.duration_sample_count
    }
}

/// The stored name of field `k` of summary totals.
pub open spec fn counts_field_name(k: int) -> Seq<char> {
    if k == 0 {
        "total_requests"@
    } else if k == 1 {
        "failed_requests"@
    } else if k == 2 {
        "partial_requests"@
    } else if k == 3 {
        "total_llm_spans"@
    } else if k == 4 {
        "total_tool_spans"@
    } else if k == 5 {
        "requests_with_tools"@
    } else if k == 6 {
        "failed_tool_calls"@
    } else if k == 7 {
        "total_input_tokens"@
    } else if k == 8 {
        "total_output_tokens"@
    } else if k == 9 {
        "total_tokens"@
    } else if k == 10 {
        "total_cached_tokens"@
    } else if k == 11 {
        "total_duration_ms"@
    } else {
        "duration_sample_count"@
    }
}

/// The value a loop contributes to a summed field `k`.
pub open spec fn snapshot_value(s: LoopSummarySnapshot, k: int) -> Option<u64> {
    if k == 3 {
        Some(s.llm_span_count)
    } else if k == 4 {
        Some(s.tool_span_count)
    } else if k == 6 {
        Some(s.failed_tool_count)
    } else if k == 7 {
        Some(s.total_input_tokens)
    } else if k == 8 {
        Some(s.total_output_tokens)
    } else if k == 9 {
        Some(s.total_tokens)
    } else if k == 10 {
        Some(s.total_cached_tokens)
    } else {
        s.duration_ms
    }
}

/// Whether a loop counts toward a counted field `k`.
pub open spec fn snapshot_flag(s: LoopSummarySnapshot, k: int) -> bool {
    if k == 0 {
        true
    } else if k == 1 {
        s.final_status == LlmTraceLoopStatus::Failed
    } else if k == 2 {
        s.final_status == LlmTraceLoopStatus::Partial
    } else if k == 5 {
        s.tool_span_count > 0
    } else {
        s.duration_ms is Some
    }
}

/// Fields 0, 1, 2, 5 and 12 count loops; the others sum values.
pub open spec fn is_counted_field(k: int) -> bool {
    k == 0 || k == 1 || k == 2 || k == 5 || k == 12
}

/// The part of a loop in field `k`.
pub open spec fn field_part(s: Option<LoopSummarySnapshot>, k: int) -> int {
    match s {
        None => 0,
        Some(x) => if is_counted_field(k) {
            presence(snapshot_flag(x, k))
        } else {
            signed_or_zero(snapshot_value(x, k))
        },
    }
}

/// How field `k` changes when loop `previous` becomes `current`.
pub open spec fn field_delta(
    previous: Option<LoopSummarySnapshot>,
    current: Option<LoopSummarySnapshot>,
    k: int,
) -> int {
    field_part(current, k) - field_part(previous, k)
}

/// Field `k` once loop `previous` has become `current`.
pub open spec fn field_after(
    row: SummaryCounts,
    previous: Option<LoopSummarySnapshot>,
    current: Option<LoopSummarySnapshot>,
    k: int,
) -> int {
    counts_field(row, k) + field_delta(previous, current, k)
}

/// No field drops below zero when loop `previous` becomes `current`.
pub open spec fn rollup_ok(
    row: SummaryCounts,
    previous: Option<LoopSummarySnapshot>,
    current: Option<LoopSummarySnapshot>,
) -> bool {
    forall|k: int| 0 <= k < 13 ==> counts_field(row, k) + field_delta(previous, current, k) >= 0
}

/// The totals after loop `previous` becomes `current`, each truncated to 64 bits.
pub open spec fn rolled_up(
    row: SummaryCounts,
    previous: Option<LoopSummarySnapshot>,
    current: Option<LoopSummarySnapshot>,
) -> SummaryCounts {
    SummaryCounts {
        total_requests: (row.total_requests + field_delta(previous, current, 0)) as u64,
        failed_requests: (row.failed_requests + field_delta(previous, current, 1)) as u64,
        partial_requests: (row.partial_requests + field_delta(previous, current, 2)) as u64,
        total_llm_spans: (row.total_llm_spans + field_delta(previous, current, 3)) as u64,
        total_tool_spans: (row.total_tool_spans + field_delta(previous, current, 4)) as u64,
        requests_with_tools: (row.requests_with_tools + field_delta(previous, current, 5)) as u64,
        failed_tool_calls: (row.failed_tool_calls + field_delta(previous, current, 6)) as u64,
        total_input_tokens: (row.total_input_tokens + field_delta(previous, current, 7)) as u64,
        total_output_tokens: (row.total_output_tokens + field_delta(previous, current, 8)) as u64,
        total_tokens: (row.total_tokens + field_delta(previous, current, 9)) as u64,
        total_cached_tokens: (row.total_cached_tokens + field_delta(previous, current, 10)) as u64,
        total_duration_ms: (row.total_duration_ms + field_delta(previous, current, 11)) as u64,
        duration_sample_count: (row.duration_sample_count + field_delta(previous, current, 12)) as u64,
    }
}

proof fn lemma_counts_ext(a: SummaryCounts, b: SummaryCounts)
    requires
        forall|k: int| 0 <= k < 13 ==> counts_field(a, k) == counts_field(b, k),
    ensures
        a == b,
{
    assert(counts_field(a, 0) == counts_field(b, 0));
    assert(counts_field(a, 1) == counts_field(b, 1));
    assert(counts_field(a, 2) == counts_field(b, 2));
    assert(counts_field(a, 3) == counts_field(b, 3));
    assert(counts_field(a, 4) == counts_field(b, 4));
    assert(counts_field(a, 5) == counts_field(b, 5));
    assert(counts_field(a, 6) == counts_field(b, 6));
    assert(counts_field(a, 7) == counts_field(b, 7));
    assert(counts_field(a, 8) == counts_field(b, 8));
    assert(counts_field(a, 9) == counts_field(b, 9));
    assert(counts_field(a, 10) == counts_field(b, 10));
    assert(counts_field(a, 11) == counts_field(b, 11));
    assert(counts_field(a, 12) == counts_field(b, 12));
}

proof fn lemma_rolled_up_field(
    row: SummaryCounts,
    previous: Option<LoopSummarySnapshot>,
    current: Option<LoopSummarySnapshot>,
    k: int,
)
    requires
        0 <= k < 13,
    ensures
        counts_field(rolled_up(row, previous, current), k) == (counts_field(row, k) + field_delta(
            previous,
            current,
            k,
        )) as u64,
{
}

/// The signed changes of the summed fields fit in 64 bits.
pub open spec fn deltas_fit(
    previous: Option<LoopSummarySnapshot>,
    current: Option<LoopSummarySnapshot>,
) -> bool {
    forall|k: int|
        0 <= k < 13 && !is_counted_field(k) ==> i64::MIN <= field_delta(previous, current, k)
            <= i64::MAX
}

fn get_counts_field(c: &SummaryCounts, k: u8) -> (r: u64)
    requires
        k < 13,
    ensures
        r == counts_field(*c, k as int),
{
    if k == 0 {
        c.total_requests
    } else if k == 1 {
        c.failed_requests
    } else if k == 2 {
        c.partial_requests
    } else if k == 3 {
        c.total_llm_spans
    } else if k == 4 {
        c.total_tool_spans
    } else if k == 5 {
        c.requests_with_tools
    } else if k == 6 {
        c.failed_tool_calls
    } else if k == 7 {
        c.total_input_tokens
    } else if k == 8 {
        c.total_output_tokens
    } else if k == 9 {
        c.total_tokens
    } else if k == 10 {
        c.total_cached_tokens
    } else if k == 11 {
        c.total_duration_ms
    } else {
        c.duration_sample_count
    }
}

fn set_counts_field(c: &mut SummaryCounts, k: u8, v: u64)
    requires
        k < 13,
    ensures
        counts_field(*final(c), k as int) == v,
        forall|j: int| 0 <= j < 13 && j != k ==> counts_field(*final(c), j) == counts_field(*old(c), j),
{
    if k == 0 {
        c.total_requests = v;
    } else if k == 1 {
        c.failed_requests = v;
    } else if k == 2 {
        c.partial_requests = v;
    } else if k == 3 {
        c.total_llm_spans = v;
    } else if k == 4 {
        c.total_tool_spans = v;
    } else if k == 5 {
        c.requests_with_tools = v;
    } else if k == 6 {
        c.failed_tool_calls = v;
    } else if k == 7 {
        c.total_input_tokens = v;
    } else if k == 8 {
        c.total_output_tokens = v;
    } else if k == 9 {
        c.total_tokens = v;
    } else if k == 10 {
        c.total_cached_tokens = v;
    } else if k == 11 {
        c.total_duration_ms = v;
    } else {
        c.duration_sample_count = v;
    }
}

fn field_name(k: u8) -> (r: &'static str)
    requires
        k < 13,
    ensures
        r@ == counts_field_name(k as int),
{
    if k == 0 {
        "total_requests"
    } else if k == 1 {
        "failed_requests"
    } else if k == 2 {
        "partial_requests"
    } else if k == 3 {
        "total_llm_spans"
    } else if k == 4 {
        "total_tool_spans"
    } else if k == 5 {
        "requests_with_tools"
    } else if k == 6 {
        "failed_tool_calls"
    } else if k == 7 {
        "total_input_tokens"
    } else if k == 8 {
        "total_output_tokens"
    } else if k == 9 {
        "total_tokens"
    } else if k == 10 {
        "total_cached_tokens"
    } else if k == 11 {
        "total_duration_ms"
    } else {
        "duration_sample_count"
    }
}

fn snapshot_value_of(s: &LoopSummarySnapshot, k: u8) -> (r: Option<u64>)
    ensures
        r == snapshot_value(*s, k as int),
{
    if k == 3 {
        Some(s.llm_span_count)
    } else if k == 4 {
        Some(s.tool_span_count)
    } else if k == 6 {
        Some(s.failed_tool_count)
    } else if k == 7 {
        Some(s.total_input_tokens)
    } else if k == 8 {
        Some(s.total_output_tokens)
    } else if k == 9 {
        Some(s.total_tokens)
    } else if k == 10 {
        Some(s.total_cached_tokens)
    } else {
        s.duration_ms
    }
}

fn snapshot_flag_of(s: &LoopSummarySnapshot, k: u8) -> (r: bool)
    ensures
        r == snapshot_flag(*s, k as int),
{
    if k == 0 {
        true
    } else if k == 1 {
        loop_failed_request(s)
    } else if k == 2 {
        loop_partial_request(s)
    } else if k == 5 {
        loop_has_tools(s)
    } else {
        s.duration_ms.is_some()
    }
}

fn delta_of(
    previous: Option<&LoopSummarySnapshot>,
    current: Option<&LoopSummarySnapshot>,
    k: u8,
) -> (r: i64)
    requires
        k < 13,
        deltas_fit(deref_opt(previous), deref_opt(current)),
    ensures
        r == field_delta(
            deref_opt(previous),
            deref_opt(current),
            k as int,
        ),
{
    if k == 0 || k == 1 || k == 2 || k == 5 || k == 12 {
        if k == 0 {
            loop_presence_delta(previous, current)
        } else {
            let p = match previous {
                Some(s) => Some(snapshot_flag_of(s, k)),
                None => None,
            };
            let c = match current {
                Some(s) => Some(snapshot_flag_of(s, k)),
                None => None,
            };
            bool_metric_delta(p, c)
        }
    } else {
        let p = match previous {
            Some(s) => snapshot_value_of(s, k),
            None => None,
        };
        let c = match current {
            Some(s) => snapshot_value_of(s, k),
            None => None,
        };
        assert(i64::MIN <= field_delta(
            deref_opt(previous),
            deref_opt(current),
            k as int,
        ) <= i64::MAX);
        value_delta(p, c)
    }
}

/// Applies the change of one loop, from `previous` to `current`, to stored
/// summary totals; the first field that would drop below zero is reported.
pub fn apply_summary_counts(
    row: SummaryCounts,
    previous: Option<&LoopSummarySnapshot>,
    current: Option<&LoopSummarySnapshot>,
) -> (r: Result<SummaryCounts, AiaStoreError>)
    requires
        deltas_fit(deref_opt(previous), deref_opt(current)),
    ensures
        ({
            let p = deref_opt(previous);
            let c = deref_opt(current);
            match r {
                Ok(n) => (p is None && c is None && n == row) || (rollup_ok(row, p, c) && n
                    == rolled_up(row, p, c)),
                Err(e) => !rollup_ok(row, p, c) && exists|k: int|
                    0 <= k < 13 && #[trigger] field_after(row, p, c, k) < 0 && (forall|j: int|
                        0 <= j < k ==> field_after(row, p, c, j) >= 0) && e@
                        == "summary field underflow: "@ + counts_field_name(k),
            }
        }),
{
    if previous.is_none() && current.is_none() {
        return Ok(row);
    }
    let ghost p = deref_opt(previous);
    let ghost c = deref_opt(current);
    let mut next = row;
    let mut k: u8 = 0;
    while k < 13
        invariant
            k <= 13,
            p == deref_opt(previous),
            c == deref_opt(current),
            deltas_fit(p, c),
            forall|j: int| 0 <= j < k ==> #[trigger] field_after(row, p, c, j) >= 0,
            forall|j: int|
                0 <= j < k ==> #[trigger] counts_field(next, j) == field_after(row, p, c, j) as u64,
            forall|j: int| k <= j < 13 ==> #[trigger] counts_field(next, j) == counts_field(row, j),
        decreases 13 - k,
    {
        let delta = delta_of(previous, current, k);
        let current_value = get_counts_field(&next, k);
        assert(current_value == counts_field(row, k as int));
        match apply_delta_u64(current_value, delta, field_name(k)) {
            Ok(v) => {
                let ghost before = next;
                set_counts_field(&mut next, k, v);
                assert(field_after(row, p, c, k as int) >= 0);
                assert(counts_field(next, k as int) == field_after(row, p, c, k as int) as u64);
                assert(forall|j: int| 0 <= j < 13 && j != k ==> counts_field(next, j) == #[trigger] counts_field(before, j));
            },
            Err(e) => {
                assert(field_after(row, p, c, k as int) < 0);
                assert(!rollup_ok(row, p, c));
                return Err(e);
            },
        }
        k = k + 1;
    }
    proof {
        assert forall|j: int| 0 <= j < 13 implies counts_field(next, j) == counts_field(rolled_up(row, p, c), j) by {
            lemma_rolled_up_field(row, p, c, j);
            assert(field_after(row, p, c, j) >= 0);
        }
        lemma_counts_ext(next, rolled_up(row, p, c));
        assert forall|j: int| 0 <= j < 13 implies counts_field(row, j) + field_delta(p, c, j) >= 0 by {
            assert(field_after(row, p, c, j) >= 0);
        }
    }
    Ok(next)
}

/// Law: adding a loop to summary totals and removing it again gives the
/// totals back.
pub proof fn law_rollup_add_then_remove(row: SummaryCounts, s: LoopSummarySnapshot)
    requires
        rollup_ok(row, None, Some(s)),
        forall|k: int| 0 <= k < 13 ==> counts_field(row, k) + field_delta(None, Some(s), k) <= u64::MAX,
    ensures
        rollup_ok(rolled_up(row, None, Some(s)), Some(s), None),
        rolled_up(rolled_up(row, None, Some(s)), Some(s), None) == row,
{
    let added = rolled_up(row, None, Some(s));
    assert forall|k: int| 0 <= k < 13 implies counts_field(added, k) == counts_field(row, k)
        + field_delta(None, Some(s), k) by {
        lemma_rolled_up_field(row, None, Some(s), k);
    }
    let back = rolled_up(added, Some(s), None);
    assert forall|k: int| 0 <= k < 13 implies counts_field(back, k) == counts_field(row, k) by {
        lemma_rolled_up_field(added, Some(s), None, k);
    }
    lemma_counts_ext(back, row);
}

/// Law: when a loop changes, the totals that counted its old state count
/// its new state instead, as if only the new state had ever been added: no
/// request is counted twice.
pub proof fn law_rollup_update_replaces(row: SummaryCounts, s1: LoopSummarySnapshot, s2: LoopSummarySnapshot)
    requires
        rollup_ok(row, None, Some(s1)),
        rollup_ok(row, None, Some(s2)),
        forall|k: int| 0 <= k < 13 ==> counts_field(row, k) + field_delta(None, Some(s1), k) <= u64::MAX,
        forall|k: int| 0 <= k < 13 ==> counts_field(row, k) + field_delta(None, Some(s2), k) <= u64::MAX,
    ensures
        rollup_ok(rolled_up(row, None, Some(s1)), Some(s1), Some(s2)),
        rolled_up(rolled_up(row, None, Some(s1)), Some(s1), Some(s2)) == rolled_up(row, None, Some(s2)),
{
    let added = rolled_up(row, None, Some(s1));
    assert forall|k: int| 0 <= k < 13 implies counts_field(added, k) == counts_field(row, k)
        + field_delta(None, Some(s1), k) by {
        lemma_rolled_up_field(row, None, Some(s1), k);
    }
    let moved = rolled_up(added, Some(s1), Some(s2));
    let direct = rolled_up(row, None, Some(s2));
    assert forall|k: int| 0 <= k < 13 implies counts_field(moved, k) == counts_field(direct, k) by {
        lemma_rolled_up_field(added, Some(s1), Some(s2), k);
        lemma_rolled_up_field(row, None, Some(s2), k);
    }
    lemma_counts_ext(moved, direct);
}

/// Field `k` summed over the loops of a table, one slot per loop (`None` for
/// a loop that is not there).
pub open spec fn field_total(loops: Seq<Option<LoopSummarySnapshot>>, k: int) -> int
    decreases loops.len(),
{
    if loops.len() == 0 {
        0
    } else {
        field_total(loops.drop_last(), k) + field_part(loops.last(), k)
    }
}

/// Summary totals agree with the loops of a table: every field is the sum
/// (or count) over all loops.
pub open spec fn totals_match(row: SummaryCounts, loops: Seq<Option<LoopSummarySnapshot>>) -> bool {
    forall|k: int| 0 <= k < 13 ==> counts_field(row, k) == #[trigger] field_total(loops, k)
}

/// Every field of the loops of a table fits in a stored total.
pub open spec fn totals_fit(loops: Seq<Option<LoopSummarySnapshot>>) -> bool {
    forall|k: int| 0 <= k < 13 ==> 0 <= #[trigger] field_total(loops, k) <= u64::MAX
}

proof fn lemma_field_total_update(
    loops: Seq<Option<LoopSummarySnapshot>>,
    i: int,
    current: Option<LoopSummarySnapshot>,
    k: int,
)
    requires
        0 <= i < loops.len(),
    ensures
        field_total(loops.update(i, current), k) == field_total(loops, k) - field_part(loops[i], k)
            + field_part(current, k),
    decreases loops.len(),
{
    let updated = loops.update(i, current);
    if i == loops.len() - 1 {
        assert(updated.drop_last() =~= loops.drop_last());
    } else {
        assert(updated.drop_last() =~= loops.drop_last().update(i, current));
        lemma_field_total_update(loops.drop_last(), i, current, k);
    }
}

/// Law: when the stored totals agree with the loops and one loop changes
/// (appears, changes or goes away), applying that change keeps them in
/// agreement: no field falls below zero, and every field of the new totals
/// is again the sum (or count) over all loops, as long as those sums fit.
pub proof fn law_rollup_tracks_the_loops(
    row: SummaryCounts,
    loops: Seq<Option<LoopSummarySnapshot>>,
    i: int,
    current: Option<LoopSummarySnapshot>,
)
    requires
        totals_match(row, loops),
        0 <= i < loops.len(),
        totals_fit(loops.update(i, current)),
    ensures
        rollup_ok(row, loops[i], current),
        totals_match(rolled_up(row, loops[i], current), loops.update(i, current)),
{
    let after = loops.update(i, current);
    assert forall|k: int| 0 <= k < 13 implies counts_field(row, k) + field_delta(
        loops[i],
        current,
        k,
    ) == field_total(after, k) && field_total(after, k) >= 0 by {
        lemma_field_total_update(loops, i, current, k);
        assert(counts_field(row, k) == field_total(loops, k));
        assert(0 <= field_total(after, k) <= u64::MAX);
    }
    assert forall|k: int| 0 <= k < 13 implies counts_field(row, k) + field_delta(
        loops[i],
        current,
        k,
    ) >= 0 by {
        assert(field_total(after, k) >= 0);
    }
    assert forall|k: int| 0 <= k < 13 implies counts_field(rolled_up(row, loops[i], current), k)
        == #[trigger] field_total(after, k) by {
        lemma_rolled_up_field(row, loops[i], current, k);
        assert(0 <= field_total(after, k) <= u64::MAX);
    }
}

/// A change of one loop: its slot in the table and its new state.
pub struct LoopChange {
    pub slot: int,
    pub current: Option<LoopSummarySnapshot>,
}

/// The table after a sequence of loop changes.
pub open spec fn loops_after(loops: Seq<Option<LoopSummarySnapshot>>, changes: Seq<LoopChange>) -> Seq<
    Option<LoopSummarySnapshot>,
>
    decreases changes.len(),
{
    if changes.len() == 0 {
        loops
    } else {
        loops_after(loops, changes.drop_last()).update(changes.last().slot, changes.last().current)
    }
}

/// The totals after a sequence of loop changes, each applied with the
/// loop's state just before it.
pub open spec fn totals_after(
    row: SummaryCounts,
    loops: Seq<Option<LoopSummarySnapshot>>,
    changes: Seq<LoopChange>,
) -> SummaryCounts
    decreases changes.len(),
{
    if changes.len() == 0 {
        row
    } else {
        let before = loops_after(loops, changes.drop_last());
        rolled_up(
            totals_after(row, loops, changes.drop_last()),
            before[changes.last().slot],
            changes.last().current,
        )
    }
}

/// Every change names a slot of the table, and the sums over the table fit
/// after each change.
pub open spec fn changes_fit(loops: Seq<Option<LoopSummarySnapshot>>, changes: Seq<LoopChange>) -> bool
    decreases changes.len(),
{
    if changes.len() == 0 {
        true
    } else {
        &&& changes_fit(loops, changes.drop_last())
        &&& 0 <= changes.last().slot < loops.len()
        &&& totals_fit(loops_after(loops, changes))
    }
}

proof fn lemma_loops_after_len(loops: Seq<Option<LoopSummarySnapshot>>, changes: Seq<LoopChange>)
    requires
        changes_fit(loops, changes),
    ensures
        loops_after(loops, changes).len() == loops.len(),
    decreases changes.len(),
{
    if changes.len() > 0 {
        lemma_loops_after_len(loops, changes.drop_last());
    }
}

/// Law: summary totals that agree with the loops keep agreeing after any
/// sequence of loop changes: every field is the sum (or count) over all
/// loops as they then stand.
pub proof fn law_totals_agree_after_any_changes(
    row: SummaryCounts,
    loops: Seq<Option<LoopSummarySnapshot>>,
    changes: Seq<LoopChange>,
)
    requires
        totals_match(row, loops),
        changes_fit(loops, changes),
    ensures
        totals_match(totals_after(row, loops, changes), loops_after(loops, changes)),
    decreases changes.len(),
{
    if changes.len() > 0 {
        let prefix = changes.drop_last();
        law_totals_agree_after_any_changes(row, loops, prefix);
        lemma_loops_after_len(loops, prefix);
        law_rollup_tracks_the_loops(
            totals_after(row, loops, prefix),
            loops_after(loops, prefix),
            changes.last().slot,
            changes.last().current,
        );
    }
}

} // verus!
