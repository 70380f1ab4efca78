use aia::trace::{
    estimate_trace_cost_micros, loop_page_number, model_pricing_for, LlmTraceDashboardRange,
    LlmTraceLoopStatus, LlmTraceSpanKind, LlmTraceStatus,
};
use aia::trace_loop::{
    extract_tool_line_changes, loop_trace_rollup_row_to_list_item, summarize_loop,
    user_message_from_summary, LoopTraceRow, ToolLineDetails,
};

fn row(id: &str, request_kind: &str, model: &str, started_at_ms: u64, duration_ms: Option<u64>) -> LoopTraceRow {
    LoopTraceRow {
        id: id.to_string(),
        trace_id: "trace-1".to_string(),
        span_id: format!("span-{id}"),
        parent_span_id: Some("root".to_string()),
        root_span_id: "root".to_string(),
        operation_name: "chat".to_string(),
        span_kind: LlmTraceSpanKind::Client,
        session_id: Some("s1".to_string()),
        turn_id: "turn-1".to_string(),
        run_id: "run-1".to_string(),
        request_kind: request_kind.to_string(),
        step_index: 0,
        provider: "openai".to_string(),
        protocol: "responses".to_string(),
        model: model.to_string(),
        endpoint_path: "/v1/responses".to_string(),
        status: LlmTraceStatus::Succeeded,
        stop_reason: None,
        status_code: Some(200),
        started_at_ms,
        duration_ms,
        input_tokens: None,
        output_tokens: None,
        total_tokens: None,
        cached_tokens: None,
        user_message: None,
        error: None,
        tool_details: None,
    }
}

fn details(lines: Option<u64>) -> ToolLineDetails {
    ToolLineDetails { lines_added: None, lines_removed: None, added: None, removed: None, lines }
}

#[test]
fn trace_names_read_back_as_themselves() {
    for s in [LlmTraceStatus::Succeeded, LlmTraceStatus::Failed] {
        assert_eq!(LlmTraceStatus::from_str(s.as_str()), s);
    }
    for k in [LlmTraceSpanKind::Client, LlmTraceSpanKind::Internal] {
        assert_eq!(LlmTraceSpanKind::from_str(k.as_str()), k);
    }
    for l in [LlmTraceLoopStatus::Completed, LlmTraceLoopStatus::Failed, LlmTraceLoopStatus::Partial] {
        assert_eq!(LlmTraceLoopStatus::from_str(l.as_str()), l);
    }
    for r in [LlmTraceDashboardRange::Today, LlmTraceDashboardRange::Week, LlmTraceDashboardRange::Month] {
        assert_eq!(LlmTraceDashboardRange::from_str(r.as_str()), r);
    }
}

#[test]
fn unknown_trace_names_fall_back() {
    assert_eq!(LlmTraceStatus::from_str("weird"), LlmTraceStatus::Succeeded);
    assert_eq!(LlmTraceSpanKind::from_str("internal"), LlmTraceSpanKind::Internal);
    assert_eq!(LlmTraceSpanKind::from_str("server"), LlmTraceSpanKind::Client);
    assert_eq!(LlmTraceLoopStatus::from_str(""), LlmTraceLoopStatus::Completed);
    assert_eq!(LlmTraceDashboardRange::from_str("year"), LlmTraceDashboardRange::Month);
}

#[test]
fn mini_models_are_priced_lower() {
    let mini = model_pricing_for("gpt-4.1-mini");
    assert_eq!(mini.input_micros_per_million, 250_000);
    assert_eq!(mini.cached_input_micros_per_million, 25_000);
    assert_eq!(mini.output_micros_per_million, 2_000_000);
    let full = model_pricing_for("gpt-4.1");
    assert_eq!(full.input_micros_per_million, 1_250_000);
    assert_eq!(full.cached_input_micros_per_million, 125_000);
    assert_eq!(full.output_micros_per_million, 10_000_000);
}

#[test]
fn cost_estimate_bills_cached_input_at_its_own_price() {
    assert_eq!(
        estimate_trace_cost_micros("gpt-4.1", Some(1_000_000), Some(1_000_000), Some(200_000)),
        11_025_000
    );
    assert_eq!(estimate_trace_cost_micros("gpt-4.1-mini", Some(1000), Some(500), None), 1250);
    assert_eq!(estimate_trace_cost_micros("gpt-4.1", None, None, None), 0);
}

#[test]
fn cached_tokens_beyond_input_are_capped() {
    assert_eq!(estimate_trace_cost_micros("gpt-4.1", Some(100), None, Some(500)), 12);
}

#[test]
fn cost_estimate_of_huge_counts_does_not_overflow() {
    let cost = estimate_trace_cost_micros("gpt-4.1", Some(u64::MAX), Some(u64::MAX), Some(0));
    let expected = ((u64::MAX as u128) * 1_250_000 + (u64::MAX as u128) * 10_000_000) / 1_000_000;
    assert_eq!(cost, expected as u64);
}

#[test]
fn tool_line_changes_prefer_explicit_counts() {
    let d = ToolLineDetails { lines_added: Some(3), lines_removed: Some(1), added: Some(9), removed: Some(9), lines: Some(9) };
    assert_eq!(extract_tool_line_changes("edit", Some(d)), (3, 1));
    let d = ToolLineDetails { lines_added: None, lines_removed: None, added: Some(4), removed: None, lines: Some(9) };
    assert_eq!(extract_tool_line_changes("apply_patch", Some(d)), (4, 0));
    assert_eq!(extract_tool_line_changes("write", Some(details(Some(12)))), (12, 0));
    assert_eq!(extract_tool_line_changes("edit", Some(details(Some(12)))), (0, 0));
    assert_eq!(extract_tool_line_changes("write", None), (0, 0));
}

#[test]
fn user_message_is_trimmed_and_blank_is_dropped() {
    assert_eq!(user_message_from_summary(Some("  hello \n")), Some("hello".to_string()));
    assert_eq!(user_message_from_summary(Some("   ")), None);
    assert_eq!(user_message_from_summary(None), None);
}

#[test]
fn loop_pages_are_counted_from_one() {
    assert_eq!(loop_page_number(20, 0), 1);
    assert_eq!(loop_page_number(20, 19), 1);
    assert_eq!(loop_page_number(20, 40), 3);
}

#[test]
fn loop_summary_rolls_up_requests_and_tools() {
    let mut a = row("a", "completion", "gpt-4.1", 1000, Some(500));
    a.input_tokens = Some(100);
    a.output_tokens = Some(20);
    a.total_tokens = Some(120);
    a.cached_tokens = Some(10);
    a.user_message = Some("hello".to_string());
    let mut b = row("b", "tool", "write", 1600, Some(100));
    b.status = LlmTraceStatus::Failed;
    b.error = Some("boom".to_string());
    b.tool_details = Some(details(Some(7)));
    let mut c = row("c", "completion", "gpt-4.1", 2000, Some(300));
    c.input_tokens = Some(200);
    c.output_tokens = Some(30);
    c.total_tokens = Some(230);

    let rollup = summarize_loop("trace-1", &vec![a, b, c]).expect("rollup");
    assert_eq!(rollup.request_kind, "completion");
    assert_eq!(rollup.model, "gpt-4.1");
    assert_eq!(rollup.session_id, "s1");
    assert_eq!(rollup.started_at_ms, 1000);
    assert_eq!(rollup.latest_started_at_ms, 2000);
    assert_eq!(rollup.finished_at_ms, Some(2300));
    assert_eq!(rollup.duration_ms, Some(1300));
    assert_eq!(rollup.total_input_tokens, 300);
    assert_eq!(rollup.total_output_tokens, 50);
    assert_eq!(rollup.total_tokens, 350);
    assert_eq!(rollup.total_cached_tokens, 10);
    assert_eq!(rollup.estimated_cost_micros, 313 + 550);
    assert_eq!(rollup.lines_added, 7);
    assert_eq!(rollup.lines_removed, 0);
    assert_eq!(rollup.llm_span_count, 2);
    assert_eq!(rollup.tool_span_count, 1);
    assert_eq!(rollup.failed_tool_count, 1);
    assert_eq!(rollup.final_status, LlmTraceLoopStatus::Partial);
    assert_eq!(rollup.latest_error, Some("boom".to_string()));
    assert_eq!(rollup.final_span_id, Some("c".to_string()));
    assert_eq!(rollup.user_message, None);
    assert_eq!(rollup.traces.len(), 3);
    assert_eq!(rollup.traces[1].id, "b");
}

#[test]
fn loop_fails_when_its_last_model_request_fails() {
    let a = row("a", "completion", "gpt-4.1", 1000, None);
    let mut b = row("b", "completion", "gpt-4.1", 2000, None);
    b.status = LlmTraceStatus::Failed;
    let rollup = summarize_loop("trace-1", &vec![a, b]).expect("rollup");
    assert_eq!(rollup.final_status, LlmTraceLoopStatus::Failed);
    assert_eq!(rollup.duration_ms, None);
    assert_eq!(rollup.finished_at_ms, None);
}

#[test]
fn loop_session_falls_back_to_the_turn() {
    let mut a = row("a", "completion", "gpt-4.1", 1000, None);
    a.session_id = Some(String::new());
    let rollup = summarize_loop("trace-1", &vec![a]).expect("rollup");
    assert_eq!(rollup.session_id, "turn-1");
    assert_eq!(rollup.final_status, LlmTraceLoopStatus::Completed);
}

#[test]
fn loop_of_tool_requests_only_is_represented_by_its_latest_request() {
    let a = row("a", "tool", "read", 1000, Some(10));
    let b = row("b", "tool", "write", 1000, Some(20));
    let rollup = summarize_loop("trace-1", &vec![a, b]).expect("rollup");
    assert_eq!(rollup.request_kind, "tool");
    assert_eq!(rollup.model, "write");
    assert_eq!(rollup.llm_span_count, 0);
    assert_eq!(rollup.tool_span_count, 2);
}

#[test]
fn mixed_non_tool_loop_shapes_are_rejected() {
    let a = row("a", "completion", "gpt-4.1", 1000, None);
    let b = row("b", "compression", "gpt-4.1", 2000, None);
    let error = summarize_loop("trace-1", &vec![a, b]).unwrap_err();
    assert_eq!(error.to_message(), "trace loop contains mixed non-tool request kinds: trace-1");

    let a = row("a", "completion", "gpt-4.1", 1000, None);
    let b = row("b", "completion", "gpt-4.1-mini", 2000, None);
    let error = summarize_loop("trace-1", &vec![a, b]).unwrap_err();
    assert_eq!(error.to_message(), "trace loop contains mixed models: trace-1");
}

#[test]
fn list_items_copy_the_request_fields() {
    let mut a = row("a", "completion", "gpt-4.1", 1000, Some(5));
    a.total_tokens = Some(9);
    let item = loop_trace_rollup_row_to_list_item(a);
    assert_eq!(item.id, "a");
    assert_eq!(item.span_id, "span-a");
    assert_eq!(item.started_at_ms, 1000);
    assert_eq!(item.duration_ms, Some(5));
    assert_eq!(item.total_tokens, Some(9));
}
