//! Rolling the requests of one agent loop up into one loop record.
use vstd::prelude::*;

use crate::dashboard::sat_add;
use crate::error::AiaStoreError;
use crate::text::{opt_text, owned, push_text, text_eq, text_less, text_lt, trim, trimmed};
use crate::trace::{
    estimate_trace_cost_micros, or_zero, trace_cost_micros, LlmTraceListItem, LlmTraceLoopStatus,
    LlmTraceSpanKind, LlmTraceStatus,
};

verus! {

/// The line counts a tool reported in its trace details; each is present
/// when the details hold it as an unsigned integer.
#[derive(Debug, Clone, Copy, PartialEq, Eq)]
pub struct ToolLineDetails {
    pub lines_added: Option<u64>,
    pub lines_removed: Option<u64>,
    pub added: Option<u64>,
    pub removed: Option<u64>,
    pub lines: Option<u64>,
}

/// The lines added and removed by a tool call: from `lines_added` and
/// `lines_removed`, else from `added` and `removed`, else, for the `write`
/// tool, `lines` added; none without details.
pub open spec fn tool_line_changes(model: Seq<char>, details: Option<ToolLineDetails>) -> (int, int) {
    match details {
        None => (0, 0),
        Some(d) => {
            if d.lines_added is Some {
                (or_zero(d.lines_added), or_zero(d.lines_removed))
            } else if d.added is Some {
                (or_zero(d.added), or_zero(d.removed))
            } else if model == "write"@ {
                (or_zero(d.lines), 0)
            } else {
                (0, 0)
            }
        },
    }
}

fn value_or_zero(v: Option<u64>) -> (r: u64)
    ensures
        r == or_zero(v),
{
    match v {
        Some(x) => x,
        None => 0,
    }
}

/// The lines added and removed by a tool call.
pub fn extract_tool_line_changes(model: &str, details: Option<ToolLineDetails>) -> (r: (u64, u64))
    ensures
        (r.0 as int, r.1 as int) == tool_line_changes(model@, details),
{
    match details {
        None => (0, 0),
        Some(d) => {
            if let Some(added) = d.lines_added {
                (added, value_or_zero(d.lines_removed))
            } else if let Some(added) = d.added {
                (added, value_or_zero(d.removed))
            } else if text_eq(model, "write") {
                (value_or_zero(d.lines), 0)
            } else {
                (0, 0)
            }
        },
    }
}

/// One stored request of a loop, with what the loop roll-up reads of it.
#[derive(Debug, Clone)]
pub struct LoopTraceRow {
    pub id: String,
    pub trace_id: String,
    pub span_id: String,
    pub parent_span_id: Option<String>,
    pub root_span_id: String,
    pub operation_name: String,
    pub span_kind: LlmTraceSpanKind,
    pub session_id: Option<String>,
    pub turn_id: String,
    pub run_id: String,
    pub request_kind: String,
    pub step_index: u32,
    pub provider: String,
    pub protocol: String,
    pub model: String,
    pub endpoint_path: String,
    pub status: LlmTraceStatus,
    pub stop_reason: Option<String>,
    pub status_code: Option<u16>,
    pub started_at_ms: u64,
    pub duration_ms: Option<u64>,
    pub input_tokens: Option<u64>,
    pub output_tokens: Option<u64>,
    pub total_tokens: Option<u64>,
    pub cached_tokens: Option<u64>,
    pub user_message: Option<String>,
    pub error: Option<String>,
    pub tool_details: Option<ToolLineDetails>,
}

/// A request of the `tool` kind; all others are model requests.
pub open spec fn is_tool_row(t: LoopTraceRow) -> bool {
    t.request_kind@ == "tool"@
}

/// `a` started later than `b`, the identifier breaking ties.
pub open spec fn started_after(a: LoopTraceRow, b: LoopTraceRow) -> bool {
    a.started_at_ms > b.started_at_ms || (a.started_at_ms == b.started_at_ms && text_less(
        b.id@,
        a.id@,
    ))
}

/// The latest-started request (of the model requests alone when
/// `llm_only`), the last one among equals.
pub open spec fn latest_row(s: Seq<LoopTraceRow>, llm_only: bool) -> Option<LoopTraceRow>
    decreases s.len(),
{
    if s.len() == 0 {
        None
    } else {
        let prev = latest_row(s.drop_last(), llm_only);
        let t = s.last();
        if llm_only && is_tool_row(t) {
            prev
        } else {
            match prev {
                None => Some(t),
                Some(p) => if started_after(p, t) {
                    Some(p)
                } else {
                    Some(t)
                },
            }
        }
    }
}

/// The earliest start among the requests.
pub open spec fn earliest_start(s: Seq<LoopTraceRow>) -> int
    decreases s.len(),
{
    if s.len() == 0 {
        0
    } else if s.len() == 1 {
        s[0].started_at_ms as int
    } else {
        let prev = earliest_start(s.drop_last());
        if (s.last().started_at_ms as int) < prev {
            s.last().started_at_ms as int
        } else {
            prev
        }
    }
}

/// The latest end (start plus duration, capped) among the requests that have a duration.
pub open spec fn latest_finish(s: Seq<LoopTraceRow>) -> Option<int>
    decreases s.len(),
{
    if s.len() == 0 {
        None
    } else {
        let prev = latest_finish(s.drop_last());
        match s.last().duration_ms {
            None => prev,
            Some(d) => {
                let f = sat_add(s.last().started_at_ms as int, d as int);
                match prev {
                    Some(p) => if f > p {
                        Some(f)
                    } else {
                        Some(p)
                    },
                    None => Some(f),
                }
            },
        }
    }
}

/// Field `field` (0 input, 1 output, 2 total, 3 cached tokens, otherwise
/// estimated cost) of a request.
pub open spec fn row_amount(t: LoopTraceRow, field: int) -> int {
    if field == 0 {
        or_zero(t.input_tokens)
    } else if field == 1 {
        or_zero(t.output_tokens)
    } else if field == 2 {
        or_zero(t.total_tokens)
    } else if field == 3 {
        or_zero(t.cached_tokens)
    } else {
        trace_cost_micros(t.model@, t.input_tokens, t.output_tokens, t.cached_tokens) as int
    }
}

/// The sum of field `field` over the model requests.
pub open spec fn llm_total(s: Seq<LoopTraceRow>, field: int) -> int
    decreases s.len(),
{
    if s.len() == 0 {
        0
    } else {
        llm_total(s.drop_last(), field) + if is_tool_row(s.last()) {
            0
        } else {
            row_amount(s.last(), field)
        }
    }
}

/// The number of tool requests (`tools`) or model requests (otherwise).
pub open spec fn count_rows(s: Seq<LoopTraceRow>, tools: bool) -> int
    decreases s.len(),
{
    if s.len() == 0 {
        0
    } else {
        count_rows(s.drop_last(), tools) + if is_tool_row(s.last()) == tools {
            1int
        } else {
            0
        }
    }
}

/// The number of failed tool requests.
pub open spec fn failed_tool_rows(s: Seq<LoopTraceRow>) -> int
    decreases s.len(),
{
    if s.len() == 0 {
        0
    } else {
        failed_tool_rows(s.drop_last()) + if is_tool_row(s.last()) && s.last().status
            == LlmTraceStatus::Failed {
            1int
        } else {
            0
        }
    }
}

/// Some model request failed.
pub open spec fn any_llm_failed(s: Seq<LoopTraceRow>) -> bool {
    exists|i: int| 0 <= i < s.len() && !is_tool_row(s[i]) && s[i].status == LlmTraceStatus::Failed
}

/// The last model request, in stored order.
pub open spec fn last_llm_row(s: Seq<LoopTraceRow>) -> Option<LoopTraceRow>
    decreases s.len(),
{
    if s.len() == 0 {
        None
    } else if !is_tool_row(s.last()) {
        Some(s.last())
    } else {
        last_llm_row(s.drop_last())
    }
}

/// The lines added and removed over all tool requests, each sum capped at `u64::MAX`.
pub open spec fn tool_lines(s: Seq<LoopTraceRow>) -> (int, int)
    decreases s.len(),
{
    if s.len() == 0 {
        (0, 0)
    } else {
        let prev = tool_lines(s.drop_last());
        if is_tool_row(s.last()) {
            let c = tool_line_changes(s.last().model@, s.last().tool_details);
            (sat_add(prev.0, c.0), sat_add(prev.1, c.1))
        } else {
            prev
        }
    }
}

/// The error of the last request that has one.
pub open spec fn last_error(s: Seq<LoopTraceRow>) -> Option<String>
    decreases s.len(),
{
    if s.len() == 0 {
        None
    } else if s.last().error is Some {
        s.last().error
    } else {
        last_error(s.drop_last())
    }
}

/// All model requests share one request kind.
pub open spec fn uniform_llm_kinds(s: Seq<LoopTraceRow>) -> bool {
    forall|i: int, j: int|
        0 <= i < s.len() && 0 <= j < s.len() && !is_tool_row(s[i]) && !is_tool_row(s[j])
            ==> s[i].request_kind@ == s[j].request_kind@
}

/// All model requests share one model.
pub open spec fn uniform_llm_models(s: Seq<LoopTraceRow>) -> bool {
    forall|i: int, j: int|
        0 <= i < s.len() && 0 <= j < s.len() && !is_tool_row(s[i]) && !is_tool_row(s[j])
            ==> s[i].model@ == s[j].model@
}

/// How a loop ended: failed when its last model request failed, partial when
/// another model request or a tool request failed, completed otherwise.
pub open spec fn loop_final_status(s: Seq<LoopTraceRow>) -> LlmTraceLoopStatus {
    if last_llm_row(s) matches Some(t) && t.status == LlmTraceStatus::Failed {
        LlmTraceLoopStatus::Failed
    } else if any_llm_failed(s) || (failed_tool_rows(s) as u32) > 0 {
        LlmTraceLoopStatus::Partial
    } else {
        LlmTraceLoopStatus::Completed
    }
}

/// Request `j` is the last model request of the loop: every later request
/// is a tool request.
pub open spec fn is_last_model_request(s: Seq<LoopTraceRow>, j: int) -> bool {
    &&& 0 <= j < s.len()
    &&& !is_tool_row(s[j])
    &&& forall|l: int| j < l < s.len() ==> is_tool_row(#[trigger] s[l])
}

proof fn lemma_last_model_request_found(s: Seq<LoopTraceRow>, j: int)
    requires
        is_last_model_request(s, j),
    ensures
        last_llm_row(s) == Some(s[j]),
    decreases s.len(),
{
    if j < s.len() - 1 {
        assert(is_tool_row(s[s.len() - 1]));
        let p = s.drop_last();
        assert forall|l: int| j < l < p.len() implies is_tool_row(#[trigger] p[l]) by {
            assert(p[l] == s[l]);
        }
        lemma_last_model_request_found(p, j);
    }
}

proof fn lemma_last_model_request_exists(s: Seq<LoopTraceRow>)
    ensures
        last_llm_row(s) matches Some(t) ==> exists|j: int|
            is_last_model_request(s, j) && #[trigger] s[j] == t,
        last_llm_row(s) is None ==> forall|l: int| 0 <= l < s.len() ==> is_tool_row(#[trigger] s[l]),
    decreases s.len(),
{
    if s.len() > 0 {
        let p = s.drop_last();
        lemma_last_model_request_exists(p);
        if is_tool_row(s.last()) {
            if last_llm_row(p) is Some {
                let j = choose|j: int| is_last_model_request(p, j) && #[trigger] p[j] == last_llm_row(p)->0;
                assert(s[j] == p[j]);
                assert forall|l: int| j < l < s.len() implies is_tool_row(#[trigger] s[l]) by {
                    if l < p.len() {
                        assert(s[l] == p[l]);
                    }
                }
                assert(is_last_model_request(s, j));
            } else {
                assert forall|l: int| 0 <= l < s.len() implies is_tool_row(#[trigger] s[l]) by {
                    if l < p.len() {
                        assert(s[l] == p[l]);
                    }
                }
            }
        } else {
            assert(is_last_model_request(s, s.len() - 1));
        }
    }
}

proof fn lemma_failed_tool_rows_positive(s: Seq<LoopTraceRow>)
    ensures
        failed_tool_rows(s) > 0 <==> exists|i: int|
            0 <= i < s.len() && is_tool_row(#[trigger] s[i]) && s[i].status
                == LlmTraceStatus::Failed,
        0 <= failed_tool_rows(s) <= s.len(),
    decreases s.len(),
{
    if s.len() > 0 {
        let p = s.drop_last();
        lemma_failed_tool_rows_positive(p);
        if exists|i: int|
            0 <= i < p.len() && is_tool_row(#[trigger] p[i]) && p[i].status
                == LlmTraceStatus::Failed {
            let i = choose|i: int|
                0 <= i < p.len() && is_tool_row(#[trigger] p[i]) && p[i].status
                    == LlmTraceStatus::Failed;
            assert(s[i] == p[i]);
        }
        if exists|i: int|
            0 <= i < s.len() && is_tool_row(#[trigger] s[i]) && s[i].status
                == LlmTraceStatus::Failed {
            let i = choose|i: int|
                0 <= i < s.len() && is_tool_row(#[trigger] s[i]) && s[i].status
                    == LlmTraceStatus::Failed;
            if i < p.len() {
                assert(p[i] == s[i]);
            }
        }
    }
}

/// Law: how a loop ended follows from which of its requests failed. It
/// failed when its last model request failed; it is partial when that last
/// model request did not fail (or there is none) but some other request,
/// model or tool, failed; it is completed exactly when no request at all
/// failed. (Loops of more than `u32::MAX` requests are left out: their
/// failed-tool count is stored in 32 bits.)
pub proof fn law_loop_status_follows_failures(s: Seq<LoopTraceRow>)
    requires
        s.len() <= u32::MAX,
    ensures
        (exists|j: int| is_last_model_request(s, j) && s[j].status == LlmTraceStatus::Failed)
            ==> loop_final_status(s) == LlmTraceLoopStatus::Failed,
        (exists|i: int| 0 <= i < s.len() && #[trigger] s[i].status == LlmTraceStatus::Failed)
            && !(exists|j: int| is_last_model_request(s, j) && s[j].status
            == LlmTraceStatus::Failed) ==> loop_final_status(s) == LlmTraceLoopStatus::Partial,
        (loop_final_status(s) == LlmTraceLoopStatus::Completed) <==> (forall|i: int|
            0 <= i < s.len() ==> #[trigger] s[i].status != LlmTraceStatus::Failed),
{
    lemma_last_model_request_exists(s);
    lemma_failed_tool_rows_positive(s);
    if exists|j: int| is_last_model_request(s, j) && s[j].status == LlmTraceStatus::Failed {
        let j = choose|j: int| is_last_model_request(s, j) && s[j].status == LlmTraceStatus::Failed;
        lemma_last_model_request_found(s, j);
    }
    let last_failed = last_llm_row(s) matches Some(t) && t.status == LlmTraceStatus::Failed;
    if last_failed {
        let j = choose|j: int| is_last_model_request(s, j) && #[trigger] s[j] == last_llm_row(s)->0;
        assert(s[j].status == LlmTraceStatus::Failed);
    }
    if exists|i: int| 0 <= i < s.len() && #[trigger] s[i].status == LlmTraceStatus::Failed {
        let i = choose|i: int| 0 <= i < s.len() && #[trigger] s[i].status == LlmTraceStatus::Failed;
        if is_tool_row(s[i]) {
            assert(failed_tool_rows(s) > 0);
            assert((failed_tool_rows(s) as u32) > 0);
        } else {
            assert(any_llm_failed(s));
        }
    } else {
        assert(!any_llm_failed(s));
        assert(failed_tool_rows(s) == 0);
        if last_llm_row(s) is Some {
            let j = choose|j: int| is_last_model_request(s, j) && #[trigger] s[j] == last_llm_row(s)->0;
            assert(s[j].status != LlmTraceStatus::Failed);
        }
    }
}

/// A stored request as its loop lists it.
pub open spec fn list_item_of(t: LoopTraceRow) -> LlmTraceListItem {
    LlmTraceListItem {
        id: t.id,
        trace_id: t.trace_id,
        span_id: t.span_id,
        parent_span_id: t.parent_span_id,
        root_span_id: t.root_span_id,
        operation_name: t.operation_name,
        span_kind: t.span_kind,
        turn_id: t.turn_id,
        run_id: t.run_id,
        request_kind: t.request_kind,
        step_index: t.step_index,
        provider: t.provider,
        protocol: t.protocol,
        model: t.model,
        endpoint_path: t.endpoint_path,
        status: t.status,
        stop_reason: t.stop_reason,
        status_code: t.status_code,
        started_at_ms: t.started_at_ms,
        duration_ms: t.duration_ms,
        total_tokens: t.total_tokens,
        cached_tokens: t.cached_tokens,
        user_message: t.user_message,
        error: t.error,
    }
}

/// A stored request as its loop lists it.
pub fn loop_trace_rollup_row_to_list_item(t: LoopTraceRow) -> (r: LlmTraceListItem)
    ensures
        r == list_item_of(t),
{
    LlmTraceListItem {
        id: t.id,
        trace_id: t.trace_id,
        span_id: t.span_id,
        parent_span_id: t.parent_span_id,
        root_span_id: t.root_span_id,
        operation_name: t.operation_name,
        span_kind: t.span_kind,
        turn_id: t.turn_id,
        run_id: t.run_id,
        request_kind: t.request_kind,
        step_index: t.step_index,
        provider: t.provider,
        protocol: t.protocol,
        model: t.model,
        endpoint_path: t.endpoint_path,
        status: t.status,
        stop_reason: t.stop_reason,
        status_code: t.status_code,
        started_at_ms: t.started_at_ms,
        duration_ms: t.duration_ms,
        total_tokens: t.total_tokens,
        cached_tokens: t.cached_tokens,
        user_message: t.user_message,
        error: t.error,
    }
}

fn is_tool(t: &LoopTraceRow) -> (r: bool)
    ensures
        r == is_tool_row(*t),
{
    text_eq(t.request_kind.as_str(), "tool")
}

fn is_started_after(a: &LoopTraceRow, b: &LoopTraceRow) -> (r: bool)
    ensures
        r == started_after(*a, *b),
{
    a.started_at_ms > b.started_at_ms || (a.started_at_ms == b.started_at_ms && text_lt(
        b.id.as_str(),
        a.id.as_str(),
    ))
}

/// The position of the latest-started request (of the model requests alone when `llm_only`).
fn latest_index(rows: &Vec<LoopTraceRow>, llm_only: bool) -> (r: Option<usize>)
    ensures
        match r {
            Some(i) => i < rows.len() && latest_row(rows@, llm_only) == Some(rows@[i as int]),
            None => latest_row(rows@, llm_only) is None,
        },
{
    let mut best: Option<usize> = None;
    let mut i: usize = 0;
    while i < rows.len()
        invariant
            i <= rows.len(),
            match best {
                Some(b) => b < i && latest_row(rows@.take(i as int), llm_only) == Some(rows@[b as int]),
                None => latest_row(rows@.take(i as int), llm_only) is None,
            },
        decreases rows.len() - i,
    {
        assert(rows@.take(i + 1).drop_last() =~= rows@.take(i as int));
        assert(rows@.take(i + 1).last() == rows@[i as int]);
        if llm_only && is_tool(&rows[i]) {
        } else {
            match best {
                None => {
                    best = Some(i);
                },
                Some(b) => {
                    if !is_started_after(&rows[b], &rows[i]) {
                        best = Some(i);
                    }
                },
            }
        }
        i = i + 1;
    }
    assert(rows@.take(rows.len() as int) =~= rows@);
    best
}

fn clone_text(s: &Option<String>) -> (r: Option<String>)
    ensures
        r == *s,
{
    match s {
        Some(t) => Some(t.clone()),
        None => None,
    }
}

/// A stored request as its loop lists it, copied.
pub fn list_item_of_row(t: &LoopTraceRow) -> (r: LlmTraceListItem)
    ensures
        r == list_item_of(*t),
{
    LlmTraceListItem {
        id: t.id.clone(),
        trace_id: t.trace_id.clone(),
        span_id: t.span_id.clone(),
        parent_span_id: clone_text(&t.parent_span_id),
        root_span_id: t.root_span_id.clone(),
        operation_name: t.operation_name.clone(),
        span_kind: t.span_kind,
        turn_id: t.turn_id.clone(),
        run_id: t.run_id.clone(),
        request_kind: t.request_kind.clone(),
        step_index: t.step_index,
        provider: t.provider.clone(),
        protocol: t.protocol.clone(),
        model: t.model.clone(),
        endpoint_path: t.endpoint_path.clone(),
        status: t.status,
        stop_reason: clone_text(&t.stop_reason),
        status_code: t.status_code,
        started_at_ms: t.started_at_ms,
        duration_ms: t.duration_ms,
        total_tokens: t.total_tokens,
        cached_tokens: t.cached_tokens,
        user_message: clone_text(&t.user_message),
        error: clone_text(&t.error),
    }
}

fn earliest_start_of(rows: &Vec<LoopTraceRow>) -> (r: u64)
    requires
        rows.len() > 0,
    ensures
        r == earliest_start(rows@),
{
    let mut best: u64 = rows[0].started_at_ms;
    let mut i: usize = 1;
    assert(rows@.take(1).drop_last() =~= rows@.take(0));
    while i < rows.len()
        invariant
            1 <= i <= rows.len(),
            best == earliest_start(rows@.take(i as int)),
        decreases rows.len() - i,
    {
        assert(rows@.take(i + 1).drop_last() =~= rows@.take(i as int));
        if rows[i].started_at_ms < best {
            best = rows[i].started_at_ms;
        }
        i = i + 1;
    }
    assert(rows@.take(rows.len() as int) =~= rows@);
    best
}

fn latest_finish_of(rows: &Vec<LoopTraceRow>) -> (r: Option<u64>)
    ensures
        match r {
            Some(f) => latest_finish(rows@) == Some(f as int),
            None => latest_finish(rows@) is None,
        },
{
    let mut best: Option<u64> = None;
    let mut i: usize = 0;
    while i < rows.len()
        invariant
            i <= rows.len(),
            match best {
                Some(f) => latest_finish(rows@.take(i as int)) == Some(f as int),
                None => latest_finish(rows@.take(i as int)) is None,
            },
        decreases rows.len() - i,
    {
        assert(rows@.take(i + 1).drop_last() =~= rows@.take(i as int));
        if let Some(d) = rows[i].duration_ms {
            let f = rows[i].started_at_ms.saturating_add(d);
            best = match best {
                Some(p) => if f > p {
                    Some(f)
                } else {
                    Some(p)
                },
                None => Some(f),
            };
        }
        i = i + 1;
    }
    assert(rows@.take(rows.len() as int) =~= rows@);
    best
}

proof fn lemma_llm_total_prefix(s: Seq<LoopTraceRow>, i: int, field: int)
    requires
        0 <= i <= s.len(),
    ensures
        0 <= llm_total(s.take(i), field) <= llm_total(s, field),
    decreases s.len() - i,
{
    if i < s.len() {
        lemma_llm_total_prefix(s, i + 1, field);
        lemma_llm_total_nonneg(s.take(i), field);
        assert(s.take(i + 1).drop_last() =~= s.take(i));
    } else {
        assert(s.take(i) =~= s);
        lemma_llm_total_nonneg(s, field);
    }
}

proof fn lemma_llm_total_nonneg(s: Seq<LoopTraceRow>, field: int)
    ensures
        llm_total(s, field) >= 0,
    decreases s.len(),
{
    if s.len() > 0 {
        lemma_llm_total_nonneg(s.drop_last(), field);
    }
}

fn row_amount_of(t: &LoopTraceRow, field: u8) -> (r: u64)
    ensures
        r == row_amount(*t, field as int),
{
    if field == 0 {
        value_or_zero(t.input_tokens)
    } else if field == 1 {
        value_or_zero(t.output_tokens)
    } else if field == 2 {
        value_or_zero(t.total_tokens)
    } else if field == 3 {
        value_or_zero(t.cached_tokens)
    } else {
        estimate_trace_cost_micros(t.model.as_str(), t.input_tokens, t.output_tokens, t.cached_tokens)
    }
}

fn llm_sum(rows: &Vec<LoopTraceRow>, field: u8) -> (r: u64)
    requires
        llm_total(rows@, field as int) <= u64::MAX,
    ensures
        r == llm_total(rows@, field as int),
{
    let mut total: u64 = 0;
    let mut i: usize = 0;
    while i < rows.len()
        invariant
            i <= rows.len(),
            llm_total(rows@, field as int) <= u64::MAX,
            total == llm_total(rows@.take(i as int), field as int),
        decreases rows.len() - i,
    {
        assert(rows@.take(i + 1).drop_last() =~= rows@.take(i as int));
        proof {
            lemma_llm_total_prefix(rows@, i + 1, field as int);
        }
        if !is_tool(&rows[i]) {
            total = total + row_amount_of(&rows[i], field);
        }
        i = i + 1;
    }
    assert(rows@.take(rows.len() as int) =~= rows@);
    total
}

proof fn lemma_count_bound(s: Seq<LoopTraceRow>, tools: bool)
    ensures
        0 <= count_rows(s, tools) <= s.len(),
        0 <= failed_tool_rows(s) <= s.len(),
    decreases s.len(),
{
    if s.len() > 0 {
        lemma_count_bound(s.drop_last(), tools);
    }
}

/// The counts of tool requests, model requests and failed tool requests.
fn count_requests(rows: &Vec<LoopTraceRow>) -> (r: (usize, usize, usize))
    ensures
        r.0 == count_rows(rows@, true),
        r.1 == count_rows(rows@, false),
        r.2 == failed_tool_rows(rows@),
{
    let mut tools: usize = 0;
    let mut llms: usize = 0;
    let mut failed: usize = 0;
    let mut i: usize = 0;
    while i < rows.len()
        invariant
            i <= rows.len(),
            tools == count_rows(rows@.take(i as int), true),
            llms == count_rows(rows@.take(i as int), false),
            failed == failed_tool_rows(rows@.take(i as int)),
        decreases rows.len() - i,
    {
        assert(rows@.take(i + 1).drop_last() =~= rows@.take(i as int));
        proof {
            lemma_count_bound(rows@.take(i as int), true);
            lemma_count_bound(rows@.take(i as int), false);
        }
        if is_tool(&rows[i]) {
            tools = tools + 1;
            match rows[i].status {
                LlmTraceStatus::Failed => {
                    failed = failed + 1;
                },
                _ => {},
            }
        } else {
            llms = llms + 1;
        }
        i = i + 1;
    }
    assert(rows@.take(rows.len() as int) =~= rows@);
    (tools, llms, failed)
}

fn any_llm_failure(rows: &Vec<LoopTraceRow>) -> (r: bool)
    ensures
        r == any_llm_failed(rows@),
{
    let mut i: usize = 0;
    while i < rows.len()
        invariant
            i <= rows.len(),
            forall|j: int|
                0 <= j < i ==> !(!is_tool_row(rows@[j]) && rows@[j].status == LlmTraceStatus::Failed),
        decreases rows.len() - i,
    {
        if !is_tool(&rows[i]) {
            match rows[i].status {
                LlmTraceStatus::Failed => {
                    return true;
                },
                _ => {},
            }
        }
        i = i + 1;
    }
    false
}

fn last_llm_index(rows: &Vec<LoopTraceRow>) -> (r: Option<usize>)
    ensures
        match r {
            Some(i) => i < rows.len() && last_llm_row(rows@) == Some(rows@[i as int]),
            None => last_llm_row(rows@) is None,
        },
{
    let mut i: usize = rows.len();
    assert(rows@.take(rows.len() as int) =~= rows@);
    while i > 0
        invariant
            i <= rows.len(),
            last_llm_row(rows@) == last_llm_row(rows@.take(i as int)),
        decreases i,
    {
        assert(rows@.take(i as int).drop_last() =~= rows@.take(i - 1));
        if !is_tool(&rows[i - 1]) {
            return Some(i - 1);
        }
        i = i - 1;
    }
    None
}

fn tool_line_totals(rows: &Vec<LoopTraceRow>) -> (r: (u64, u64))
    ensures
        (r.0 as int, r.1 as int) == tool_lines(rows@),
{
    let mut added: u64 = 0;
    let mut removed: u64 = 0;
    let mut i: usize = 0;
    while i < rows.len()
        invariant
            i <= rows.len(),
            (added as int, removed as int) == tool_lines(rows@.take(i as int)),
        decreases rows.len() - i,
    {
        assert(rows@.take(i + 1).drop_last() =~= rows@.take(i as int));
        if is_tool(&rows[i]) {
            let (a, r) = extract_tool_line_changes(rows[i].model.as_str(), rows[i].tool_details);
            added = added.saturating_add(a);
            removed = removed.saturating_add(r);
        }
        i = i + 1;
    }
    assert(rows@.take(rows.len() as int) =~= rows@);
    (added, removed)
}

fn last_error_of(rows: &Vec<LoopTraceRow>) -> (r: Option<String>)
    ensures
        r == last_error(rows@),
{
    let mut i: usize = rows.len();
    assert(rows@.take(rows.len() as int) =~= rows@);
    while i > 0
        invariant
            i <= rows.len(),
            last_error(rows@) == last_error(rows@.take(i as int)),
        decreases i,
    {
        assert(rows@.take(i as int).drop_last() =~= rows@.take(i - 1));
        if rows[i - 1].error.is_some() {
            return clone_text(&rows[i - 1].error);
        }
        i = i - 1;
    }
    None
}

/// Whether the model requests share one request kind, and whether they share one model.
fn uniformity(rows: &Vec<LoopTraceRow>) -> (r: (bool, bool))
    ensures
        r.0 == uniform_llm_kinds(rows@),
        r.1 == uniform_llm_models(rows@),
{
    let mut first: Option<usize> = None;
    let mut kinds = true;
    let mut models = true;
    let mut i: usize = 0;
    while i < rows.len()
        invariant
            i <= rows.len(),
            match first {
                Some(f) => f < i && !is_tool_row(rows@[f as int]) && (forall|j: int|
                    0 <= j < f ==> is_tool_row(rows@[j])),
                None => forall|j: int| 0 <= j < i ==> is_tool_row(rows@[j]),
            },
            kinds == (forall|j: int|
                0 <= j < i && !is_tool_row(rows@[j]) ==> rows@[j].request_kind@ == rows@[first->0 as int].request_kind@),
            models == (forall|j: int|
                0 <= j < i && !is_tool_row(rows@[j]) ==> rows@[j].model@ == rows@[first->0 as int].model@),
        decreases rows.len() - i,
    {
        if !is_tool(&rows[i]) {
            match first {
                None => {
                    first = Some(i);
                },
                Some(f) => {
                    if rows[i].request_kind != rows[f].request_kind {
                        kinds = false;
                    }
                    if rows[i].model != rows[f].model {
                        models = false;
                    }
                },
            }
        }
        i = i + 1;
    }
    proof {
        if kinds {
            assert forall|a: int, b: int|
                0 <= a < rows.len() && 0 <= b < rows.len() && !is_tool_row(rows@[a]) && !is_tool_row(rows@[b])
                implies rows@[a].request_kind@ == rows@[b].request_kind@ by {}
        } else {
            let j = choose|j: int| 0 <= j < rows.len() && !is_tool_row(rows@[j]) && rows@[j].request_kind@ != rows@[first->0 as int].request_kind@;
            assert(!is_tool_row(rows@[first->0 as int]));
        }
        if models {
            assert forall|a: int, b: int|
                0 <= a < rows.len() && 0 <= b < rows.len() && !is_tool_row(rows@[a]) && !is_tool_row(rows@[b])
                implies rows@[a].model@ == rows@[b].model@ by {}
        } else {
            let j = choose|j: int| 0 <= j < rows.len() && !is_tool_row(rows@[j]) && rows@[j].model@ != rows@[first->0 as int].model@;
            assert(!is_tool_row(rows@[first->0 as int]));
        }
    }
    (kinds, models)
}

/// The roll-up of one agent loop.
#[derive(Debug)]
pub struct LoopRollup {
    pub request_kind: String,
    pub session_id: String,
    pub turn_id: String,
    pub run_id: String,
    pub root_span_id: String,
    pub model: String,
    pub protocol: String,
    pub endpoint_path: String,
    pub latest_started_at_ms: u64,
    pub started_at_ms: u64,
    pub finished_at_ms: Option<u64>,
    pub duration_ms: Option<u64>,
    pub total_input_tokens: u64,
    pub total_output_tokens: u64,
    pub total_tokens: u64,
    pub total_cached_tokens: u64,
    pub estimated_cost_micros: u64,
    pub lines_added: u64,
    pub lines_removed: u64,
    pub llm_span_count: u32,
    pub tool_span_count: u32,
    pub failed_tool_count: u32,
    pub final_status: LlmTraceLoopStatus,
    pub user_message: Option<String>,
    pub latest_error: Option<String>,
    pub final_span_id: Option<String>,
    pub traces: Vec<LlmTraceListItem>,
}

/// The request that represents a loop: its latest model request, or its
/// latest request when it has no model request.
pub open spec fn representative_row(s: Seq<LoopTraceRow>) -> LoopTraceRow {
    match latest_row(s, true) {
        Some(t) => t,
        None => latest_row(s, false)->0,
    }
}

/// The user message of a loop: that of its latest model request, else that
/// of its latest request.
pub open spec fn loop_user_message(s: Seq<LoopTraceRow>) -> Option<String> {
    match latest_row(s, true) {
        Some(t) if t.user_message is Some => t.user_message,
        _ => latest_row(s, false)->0.user_message,
    }
}

/// The session of a loop: that of its latest model request, else that of
/// its latest request; when that is absent or empty, the turn of the
/// representative request.
pub open spec fn loop_session_id(s: Seq<LoopTraceRow>) -> Seq<char> {
    let candidate = match latest_row(s, true) {
        Some(t) if t.session_id is Some => t.session_id,
        _ => latest_row(s, false)->0.session_id,
    };
    match candidate {
        Some(x) if x@.len() > 0 => x@,
        _ => representative_row(s).turn_id@,
    }
}

/// `x` is the roll-up of the loop made of the requests `s`, in stored order.
pub open spec fn is_rollup_of(s: Seq<LoopTraceRow>, x: LoopRollup) -> bool {
    let rep = representative_row(s);
    let start = earliest_start(s);
    &&& x.request_kind == rep.request_kind
    &&& x.session_id@ == loop_session_id(s)
    &&& x.turn_id == rep.turn_id
    &&& x.run_id == rep.run_id
    &&& x.root_span_id == rep.root_span_id
    &&& x.model == rep.model
    &&& x.protocol == rep.protocol
    &&& x.endpoint_path == rep.endpoint_path
    &&& x.latest_started_at_ms == latest_row(s, false)->0.started_at_ms
    &&& x.started_at_ms == start
    &&& match latest_finish(s) {
        Some(f) => x.finished_at_ms == Some(f as u64) && x.duration_ms == Some(
            (if f >= start {
                f - start
            } else {
                0
            }) as u64,
        ),
        None => x.finished_at_ms is None && x.duration_ms is None,
    }
    &&& x.total_input_tokens == llm_total(s, 0)
    &&& x.total_output_tokens == llm_total(s, 1)
    &&& x.total_tokens == llm_total(s, 2)
    &&& x.total_cached_tokens == llm_total(s, 3)
    &&& x.estimated_cost_micros == llm_total(s, 4)
    &&& (x.lines_added as int, x.lines_removed as int) == tool_lines(s)
    &&& x.llm_span_count == count_rows(s, false) as u32
    &&& x.tool_span_count == count_rows(s, true) as u32
    &&& x.failed_tool_count == failed_tool_rows(s) as u32
    &&& x.final_status == loop_final_status(s)
    &&& x.user_message == loop_user_message(s)
    &&& x.latest_error == last_error(s)
    &&& x.final_span_id == Some(s.last().id)
    &&& x.traces@ == s.map_values(|t: LoopTraceRow| list_item_of(t))
}

fn list_items(rows: &Vec<LoopTraceRow>) -> (r: Vec<LlmTraceListItem>)
    ensures
        r@ == rows@.map_values(|t: LoopTraceRow| list_item_of(t)),
{
    let mut items: Vec<LlmTraceListItem> = Vec::new();
    let mut i: usize = 0;
    while i < rows.len()
        invariant
            i <= rows.len(),
            items@ == rows@.take(i as int).map_values(|t: LoopTraceRow| list_item_of(t)),
        decreases rows.len() - i,
    {
        items.push(list_item_of_row(&rows[i]));
        assert(rows@.take(i + 1).map_values(|t: LoopTraceRow| list_item_of(t)) =~= rows@.take(
            i as int,
        ).map_values(|t: LoopTraceRow| list_item_of(t)).push(list_item_of(rows@[i as int])));
        i = i + 1;
    }
    assert(rows@.take(rows.len() as int) =~= rows@);
    items
}

proof fn lemma_latest_some(s: Seq<LoopTraceRow>)
    requires
        s.len() > 0,
    ensures
        latest_row(s, false) is Some,
    decreases s.len(),
{
}

/// Rolls the requests of one agent loop, in stored order, up into one loop
/// record; the model requests must share one request kind and one model.
pub fn summarize_loop(trace_id: &str, rows: &Vec<LoopTraceRow>) -> (r: Result<LoopRollup, AiaStoreError>)
    requires
        rows.len() > 0,
        llm_total(rows@, 0) <= u64::MAX,
        llm_total(rows@, 1) <= u64::MAX,
        llm_total(rows@, 2) <= u64::MAX,
        llm_total(rows@, 3) <= u64::MAX,
        llm_total(rows@, 4) <= u64::MAX,
    ensures
        match r {
            Ok(x) => uniform_llm_kinds(rows@) && uniform_llm_models(rows@) && is_rollup_of(rows@, x),
            Err(e) => (!uniform_llm_kinds(rows@) && e@
                == "trace loop contains mixed non-tool request kinds: "@ + trace_id@) || (
            uniform_llm_kinds(rows@) && !uniform_llm_models(rows@) && e@
                == "trace loop contains mixed models: "@ + trace_id@),
        },
{
    let (kinds, models) = uniformity(rows);
    if !kinds {
        let mut message = owned("trace loop contains mixed non-tool request kinds: ");
        push_text(&mut message, trace_id);
        return Err(AiaStoreError::new(message));
    }
    if !models {
        let mut message = owned("trace loop contains mixed models: ");
        push_text(&mut message, trace_id);
        return Err(AiaStoreError::new(message));
    }
    proof {
        lemma_latest_some(rows@);
    }
    let latest = match latest_index(rows, false) {
        Some(i) => i,
        None => {
            return Err(AiaStoreError::new(owned("trace loop latest item missing")));
        },
    };
    let latest_llm = latest_index(rows, true);
    let rep: usize = match latest_llm {
        Some(i) => i,
        None => latest,
    };
    let started_at_ms = earliest_start_of(rows);
    let finished_at_ms = latest_finish_of(rows);
    let duration_ms = match finished_at_ms {
        Some(f) => Some(f.saturating_sub(started_at_ms)),
        None => None,
    };
    let (tool_count, llm_count, failed_count) = count_requests(rows);
    let (lines_added, lines_removed) = tool_line_totals(rows);
    let final_status = match last_llm_index(rows) {
        Some(i) if matches!(rows[i].status, LlmTraceStatus::Failed) => LlmTraceLoopStatus::Failed,
        _ => if any_llm_failure(rows) || (failed_count as u32) > 0 {
            LlmTraceLoopStatus::Partial
        } else {
            LlmTraceLoopStatus::Completed
        },
    };
    let user_message = match latest_llm {
        Some(i) if rows[i].user_message.is_some() => clone_text(&rows[i].user_message),
        _ => clone_text(&rows[latest].user_message),
    };
    let candidate = match latest_llm {
        Some(i) if rows[i].session_id.is_some() => clone_text(&rows[i].session_id),
        _ => clone_text(&rows[latest].session_id),
    };
    let session_id = match candidate {
        Some(x) if !x.as_str().is_empty() => x,
        _ => rows[rep].turn_id.clone(),
    };
    let last = rows.len() - 1;
    Ok(
        LoopRollup {
            request_kind: rows[rep].request_kind.clone(),
            session_id,
            turn_id: rows[rep].turn_id.clone(),
            run_id: rows[rep].run_id.clone(),
            root_span_id: rows[rep].root_span_id.clone(),
            model: rows[rep].model.clone(),
            protocol: rows[rep].protocol.clone(),
            endpoint_path: rows[rep].endpoint_path.clone(),
            latest_started_at_ms: rows[latest].started_at_ms,
            started_at_ms,
            finished_at_ms,
            duration_ms,
            total_input_tokens: llm_sum(rows, 0),
            total_output_tokens: llm_sum(rows, 1),
            total_tokens: llm_sum(rows, 2),
            total_cached_tokens: llm_sum(rows, 3),
            estimated_cost_micros: llm_sum(rows, 4),
            lines_added,
            lines_removed,
            llm_span_count: llm_count as u32,
            tool_span_count: tool_count as u32,
            failed_tool_count: failed_count as u32,
            final_status,
            user_message,
            latest_error: last_error_of(rows),
            final_span_id: Some(rows[last].id.clone()),
            traces: list_items(rows),
        },
    )
}

/// The user message a request summary carries: its `user_message` text,
/// trimmed, and absent when blank or missing.
pub fn user_message_from_summary(raw: Option<&str>) -> (r: Option<String>)
    ensures
        opt_text(r) == (match raw {
            Some(text) => if trimmed(text@).len() > 0 {
                Some(trimmed(text@))
            } else {
                None
            },
            None => None,
        }),
{
    match raw {
        Some(text) => {
            let t = trim(text);
            if t.as_str().is_empty() {
                None
            } else {
                Some(t)
            }
        },
        None => None,
    }
}

} // verus!
