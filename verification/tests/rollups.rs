use aia::rollup_plan::{
    adjust_duration_bucket, adjust_model_count, next_latest_started_at_ms,
    p95_duration_from_buckets, summary_rollup_state_needs_rebuild, summary_rollup_targets,
    update_duration_bucket, update_model_count, LatestStartedUpdate,
};
use aia::trace::LlmTraceLoopStatus;
use aia::trace_rollup::{
    apply_delta_u64, apply_summary_counts, bool_metric_delta, bool_to_i64, loop_presence_delta,
    value_delta, LoopSummarySnapshot, SummaryCounts,
};

fn zero_counts() -> SummaryCounts {
    SummaryCounts {
        total_requests: 0,
        failed_requests: 0,
        partial_requests: 0,
        total_llm_spans: 0,
        total_tool_spans: 0,
        requests_with_tools: 0,
        failed_tool_calls: 0,
        total_input_tokens: 0,
        total_output_tokens: 0,
        total_tokens: 0,
        total_cached_tokens: 0,
        total_duration_ms: 0,
        duration_sample_count: 0,
    }
}

fn snapshot(tool_spans: u64, failed_tools: u64, status: LlmTraceLoopStatus, duration_ms: Option<u64>) -> LoopSummarySnapshot {
    LoopSummarySnapshot {
        trace_id: "trace-1".to_string(),
        request_kind: "completion".to_string(),
        session_id: "s1".to_string(),
        model: "gpt-4.1".to_string(),
        latest_started_at_ms: 1000,
        duration_ms,
        total_input_tokens: 100,
        total_output_tokens: 20,
        total_tokens: 120,
        total_cached_tokens: 10,
        estimated_cost_micros: 5,
        lines_added: 0,
        lines_removed: 0,
        llm_span_count: 2,
        tool_span_count: tool_spans,
        failed_tool_count: failed_tools,
        final_status: status,
    }
}

#[test]
fn deltas_follow_presence_and_values() {
    assert_eq!(bool_to_i64(true), 1);
    assert_eq!(bool_to_i64(false), 0);
    let s = snapshot(0, 0, LlmTraceLoopStatus::Completed, None);
    assert_eq!(loop_presence_delta(None, Some(&s)), 1);
    assert_eq!(loop_presence_delta(Some(&s), None), -1);
    assert_eq!(loop_presence_delta(Some(&s), Some(&s)), 0);
    assert_eq!(bool_metric_delta(Some(true), Some(false)), -1);
    assert_eq!(bool_metric_delta(None, Some(true)), 1);
    assert_eq!(value_delta(Some(10), Some(4)), -6);
    assert_eq!(value_delta(None, Some(4)), 4);
}

#[test]
fn applying_a_negative_total_is_refused() {
    assert_eq!(apply_delta_u64(5, -2, "total_requests").unwrap(), 3);
    let error = apply_delta_u64(1, -2, "total_requests").unwrap_err();
    assert_eq!(error.to_message(), "summary field underflow: total_requests");
}

#[test]
fn summary_rollup_updates_same_loop_without_double_counting_requests() {
    let first = snapshot(0, 0, LlmTraceLoopStatus::Completed, Some(100));
    let second = snapshot(0, 0, LlmTraceLoopStatus::Failed, Some(300));
    let added = apply_summary_counts(zero_counts(), None, Some(&first)).unwrap();
    assert_eq!(added.total_requests, 1);
    assert_eq!(added.total_duration_ms, 100);
    assert_eq!(added.duration_sample_count, 1);
    let updated = apply_summary_counts(added, Some(&first), Some(&second)).unwrap();
    assert_eq!(updated.total_requests, 1);
    assert_eq!(updated.failed_requests, 1);
    assert_eq!(updated.total_llm_spans, 2);
    assert_eq!(updated.total_duration_ms, 300);
    assert_eq!(updated.duration_sample_count, 1);
    assert_eq!(updated, apply_summary_counts(zero_counts(), None, Some(&second)).unwrap());
}

#[test]
fn summary_rollup_updates_tool_counts_without_double_counting_requests_with_tools() {
    let first = snapshot(1, 0, LlmTraceLoopStatus::Completed, None);
    let second = snapshot(3, 1, LlmTraceLoopStatus::Partial, None);
    let added = apply_summary_counts(zero_counts(), None, Some(&first)).unwrap();
    assert_eq!(added.requests_with_tools, 1);
    let updated = apply_summary_counts(added, Some(&first), Some(&second)).unwrap();
    assert_eq!(updated.requests_with_tools, 1);
    assert_eq!(updated.total_tool_spans, 3);
    assert_eq!(updated.failed_tool_calls, 1);
    assert_eq!(updated.partial_requests, 1);
    assert_eq!(updated.total_requests, 1);
}

#[test]
fn adding_then_removing_a_loop_restores_the_totals() {
    let s = snapshot(2, 1, LlmTraceLoopStatus::Partial, Some(42));
    let mut base = zero_counts();
    base.total_requests = 7;
    base.total_tokens = 1000;
    let added = apply_summary_counts(base, None, Some(&s)).unwrap();
    let removed = apply_summary_counts(added, Some(&s), None).unwrap();
    assert_eq!(removed, base);
}

#[test]
fn no_change_leaves_totals_alone() {
    let mut base = zero_counts();
    base.total_requests = 3;
    assert_eq!(apply_summary_counts(base, None, None).unwrap(), base);
}

#[test]
fn removing_a_loop_that_was_never_counted_underflows_at_the_first_field() {
    let s = snapshot(0, 0, LlmTraceLoopStatus::Completed, None);
    let error = apply_summary_counts(zero_counts(), Some(&s), None).unwrap_err();
    assert_eq!(error.to_message(), "summary field underflow: total_requests");
    let mut base = zero_counts();
    base.total_requests = 1;
    let error = apply_summary_counts(base, Some(&s), None).unwrap_err();
    assert_eq!(error.to_message(), "summary field underflow: total_llm_spans");
}

fn targets_as_tuples(previous: Option<&str>, current: Option<&str>) -> Vec<(Option<String>, bool, bool)> {
    summary_rollup_targets(previous, current)
        .into_iter()
        .map(|t| (t.request_kind, t.include_previous, t.include_current))
        .collect()
}

#[test]
fn same_kind_change_touches_global_and_its_kind_once() {
    assert_eq!(
        targets_as_tuples(Some("completion"), Some("completion")),
        vec![(None, true, true), (Some("completion".to_string()), true, true)]
    );
}

#[test]
fn kind_change_moves_the_loop_between_kinds() {
    assert_eq!(
        targets_as_tuples(Some("completion"), Some("compression")),
        vec![
            (None, true, true),
            (Some("completion".to_string()), true, false),
            (Some("compression".to_string()), false, true),
        ]
    );
}

#[test]
fn new_and_removed_loops_touch_global_and_their_kind() {
    assert_eq!(
        targets_as_tuples(None, Some("completion")),
        vec![(None, false, true), (Some("completion".to_string()), false, true)]
    );
    assert_eq!(
        targets_as_tuples(Some("completion"), None),
        vec![(None, true, false), (Some("completion".to_string()), true, false)]
    );
    assert_eq!(targets_as_tuples(None, None), vec![(None, false, false)]);
}

#[test]
fn latest_start_grows_or_is_recalculated() {
    assert_eq!(next_latest_started_at_ms(Some(100), None, Some(150)), LatestStartedUpdate::Known(Some(150)));
    assert_eq!(next_latest_started_at_ms(Some(100), Some(50), Some(80)), LatestStartedUpdate::Known(Some(100)));
    assert_eq!(next_latest_started_at_ms(None, None, Some(7)), LatestStartedUpdate::Known(Some(7)));
    assert_eq!(next_latest_started_at_ms(None, None, None), LatestStartedUpdate::Known(None));
    assert_eq!(next_latest_started_at_ms(Some(100), Some(100), Some(90)), LatestStartedUpdate::Recalculate);
    assert_eq!(next_latest_started_at_ms(Some(100), Some(100), None), LatestStartedUpdate::Recalculate);
    assert_eq!(next_latest_started_at_ms(Some(100), Some(100), Some(120)), LatestStartedUpdate::Known(Some(120)));
}

#[test]
fn model_counts_are_deleted_at_zero_and_refused_below() {
    assert_eq!(adjust_model_count("*", "gpt-4.1", Some(2), -1).unwrap(), Some(1));
    assert_eq!(adjust_model_count("*", "gpt-4.1", Some(1), -1).unwrap(), None);
    assert_eq!(adjust_model_count("*", "gpt-4.1", None, 1).unwrap(), Some(1));
    let error = adjust_model_count("completion", "gpt-4.1", None, -1).unwrap_err();
    assert_eq!(error.to_message(), "summary model count underflow: completion/gpt-4.1");
}

#[test]
fn duration_buckets_are_deleted_at_zero_and_refused_below() {
    assert_eq!(adjust_duration_bucket("*", 250, Some(3), 1).unwrap(), Some(4));
    assert_eq!(adjust_duration_bucket("*", 250, Some(1), -1).unwrap(), None);
    let error = adjust_duration_bucket("*", 250, Some(0), -1).unwrap_err();
    assert_eq!(error.to_message(), "summary duration bucket underflow: */250");
}

#[test]
fn unchanged_models_and_durations_are_not_adjusted() {
    assert_eq!(update_model_count(Some("a"), Some("a")), (None, None));
    assert_eq!(update_model_count(None, None), (None, None));
    assert_eq!(update_model_count(Some("a"), Some("b")), (Some("a".to_string()), Some("b".to_string())));
    assert_eq!(update_model_count(None, Some("b")), (None, Some("b".to_string())));
    assert_eq!(update_duration_bucket(Some(5), Some(5)), (None, None));
    assert_eq!(update_duration_bucket(Some(5), None), (Some(5), None));
}

#[test]
fn p95_is_the_first_bucket_reaching_the_target() {
    let buckets = vec![(100, 10), (200, 8), (900, 2)];
    assert_eq!(p95_duration_from_buckets(20, 19, &buckets), Some(900));
    assert_eq!(p95_duration_from_buckets(20, 18, &buckets), Some(200));
    assert_eq!(p95_duration_from_buckets(20, 1, &buckets), Some(100));
    assert_eq!(p95_duration_from_buckets(20, 21, &buckets), None);
    assert_eq!(p95_duration_from_buckets(0, 1, &buckets), None);
    let saturating = vec![(1, u64::MAX), (2, 5)];
    assert_eq!(p95_duration_from_buckets(5, u64::MAX, &saturating), Some(1));
}

#[test]
fn rollup_state_is_rebuilt_only_when_something_is_missing() {
    assert!(!summary_rollup_state_needs_rebuild(false, false, false, true, false));
    assert!(!summary_rollup_state_needs_rebuild(true, true, true, false, false));
    assert!(!summary_rollup_state_needs_rebuild(true, true, true, true, true));
    assert!(summary_rollup_state_needs_rebuild(true, false, true, false, false));
    assert!(summary_rollup_state_needs_rebuild(true, true, false, false, false));
    assert!(summary_rollup_state_needs_rebuild(true, true, true, true, false));
}

#[test]
fn totals_equal_the_sums_over_loops_after_a_sequence_of_changes() {
    let a1 = snapshot(1, 0, LlmTraceLoopStatus::Completed, Some(50));
    let b1 = snapshot(0, 0, LlmTraceLoopStatus::Failed, None);
    let a2 = snapshot(3, 1, LlmTraceLoopStatus::Partial, Some(80));
    let c1 = snapshot(2, 2, LlmTraceLoopStatus::Completed, Some(10));
    // Loop a appears, loop b appears, a changes, c appears, b goes away.
    let mut row = zero_counts();
    row = apply_summary_counts(row, None, Some(&a1)).unwrap();
    row = apply_summary_counts(row, None, Some(&b1)).unwrap();
    row = apply_summary_counts(row, Some(&a1), Some(&a2)).unwrap();
    row = apply_summary_counts(row, None, Some(&c1)).unwrap();
    row = apply_summary_counts(row, Some(&b1), None).unwrap();
    // The loops now standing are a2 and c1.
    assert_eq!(row.total_requests, 2);
    assert_eq!(row.failed_requests, 0);
    assert_eq!(row.partial_requests, 1);
    assert_eq!(row.total_llm_spans, 4);
    assert_eq!(row.total_tool_spans, 5);
    assert_eq!(row.requests_with_tools, 2);
    assert_eq!(row.failed_tool_calls, 3);
    assert_eq!(row.total_input_tokens, 200);
    assert_eq!(row.total_output_tokens, 40);
    assert_eq!(row.total_tokens, 240);
    assert_eq!(row.total_cached_tokens, 20);
    assert_eq!(row.total_duration_ms, 90);
    assert_eq!(row.duration_sample_count, 2);
}
