use aia::tool_policy::refused_tool_call;
use aia::turn_loop::tool_calls_so_far;
use aia::turn_loop::{TurnAction, TurnEvent};
use aia::tool_policy::{prepare_tool_answer, PreparedToolCall, ToolAnswer};
use aia::tool_policy::{handoff_anchor_name, handoff_result_message, tool_result_event, tool_result_status};
use aia::context_window::worth_compressing;
use aia::turn_loop::{join_user_messages, require_user_messages, turn_start_event};
use aia::context_window::{
    compression_cutoff, current_input_tokens, current_turn_has_tool_result_since_usage,
    drop_orphaned_tool_results, effective_max_output_tokens, fallback_compression_entries,
    has_anchor_after_last_completed_turn, has_new_context_since_last_usage_sample,
    latest_completed_turn_index, pending_turn_conversation_before_anchor, should_preflight_compress,
    ConversationItemRef,
    TapeEntryInfo, TapeEntryKind,
};
use aia::event_log::EventSubscribers;
use aia::runtime_error::RuntimeError;
use aia::tool_policy::{
    build_llm_trace_context, build_tool_source_entry_ids, build_tool_trace_context,
    can_run_in_parallel, is_question_tool_call, parse_question_kind, summarize_for_duplicate_message,
    tool_call_gate, tool_call_signature, tool_calls_are_parallel, tool_result_matches_call,
    QuestionKind, ToolCallGate,
};
use aia::turn_loop::{
    after_completion, completion_repeats_stream, default_turn_outcome, failure_outcome,
    max_tool_calls_per_turn, next_segment_step, normalize_text, order_by_entry_id,
    should_flush_streamed_text, should_flush_streamed_thinking, stored_user_messages, thinking_of,
    validate_completion_stop_reason, AfterCompletion, CompletionFailure, CompletionSegmentRef,
    SegmentStep, TurnLoopState, TurnOutcome,
};

fn entry(id: u64, run_id: Option<&str>, kind: TapeEntryKind) -> TapeEntryInfo {
    TapeEntryInfo { id, run_id: run_id.map(|s| s.to_string()), kind }
}

#[test]
fn runtime_errors_carry_their_messages() {
    assert_eq!(RuntimeError::model("boom").to_message(), "模型执行失败：boom");
    assert_eq!(RuntimeError::session("disk full").to_message(), "会话持久化失败：disk full");
    assert_eq!(RuntimeError::hook("bad").to_message(), "运行时 hook 失败：bad");
    assert_eq!(RuntimeError::tool("oops").to_message(), "工具执行失败：oops");
    assert_eq!(RuntimeError::tool_unavailable("shell").to_message(), "工具不可用：shell");
    assert_eq!(RuntimeError::subscription("gone").to_message(), "gone");
    assert_eq!(
        RuntimeError::tool_result_mismatch("read", "call_1", "write", "call_2").to_message(),
        "工具结果不匹配：调用 read#call_1, 结果 write#call_2"
    );
    assert_eq!(RuntimeError::tool_call_limit(8).to_message(), "轮次超过最大工具调用次数：8");
    assert_eq!(RuntimeError::stop_reason_mismatch("ToolUse").to_message(), "停止原因与完成内容不匹配：ToolUse");
    assert_eq!(RuntimeError::cancelled().to_message(), "本轮已取消");
    assert!(RuntimeError::cancelled().is_cancelled());
    assert!(!RuntimeError::model("x").is_cancelled());
}

#[test]
fn output_budget_tightens_near_the_context_limit() {
    assert_eq!(effective_max_output_tokens(Some(8000), Some(128_000), Some(100_000)), Some(8000));
    assert_eq!(effective_max_output_tokens(Some(8000), Some(128_000), Some(125_000)), Some(128_000 - 125_032));
    assert_eq!(effective_max_output_tokens(Some(8000), Some(128_000), Some(127_990)), Some(1));
    assert_eq!(effective_max_output_tokens(None, Some(1000), Some(100)), Some(868));
    assert_eq!(effective_max_output_tokens(Some(8000), None, Some(100)), Some(8000));
    assert_eq!(effective_max_output_tokens(None, Some(1000), None), None);
    assert_eq!(effective_max_output_tokens(Some(0), Some(1000), Some(10)), Some(1));
    assert_eq!(effective_max_output_tokens(Some(5), Some(u32::MAX), Some(u32::MAX)), Some(1));
}

#[test]
fn input_tokens_are_forgotten_after_an_anchor_and_capped() {
    assert_eq!(current_input_tokens(false, Some(1234)), Some(1234));
    assert_eq!(current_input_tokens(true, Some(1234)), None);
    assert_eq!(current_input_tokens(false, None), None);
    assert_eq!(current_input_tokens(false, Some(u64::MAX)), Some(u32::MAX));
}

#[test]
fn anchors_after_the_last_completed_turn_are_found() {
    let entries = vec![
        entry(1, Some("t1"), TapeEntryKind::Message),
        entry(2, Some("t1"), TapeEntryKind::TurnCompleted),
        entry(3, None, TapeEntryKind::Anchor),
        entry(4, Some("t2"), TapeEntryKind::Message),
        entry(5, Some("t2"), TapeEntryKind::TurnCompleted),
    ];
    assert_eq!(latest_completed_turn_index(&entries), Some(4));
    assert!(!has_anchor_after_last_completed_turn(&entries));
    let mut with_anchor = entries;
    with_anchor.push(entry(6, None, TapeEntryKind::Anchor));
    assert!(has_anchor_after_last_completed_turn(&with_anchor));
    let no_turn = vec![entry(1, None, TapeEntryKind::Anchor)];
    assert_eq!(latest_completed_turn_index(&no_turn), None);
    assert!(!has_anchor_after_last_completed_turn(&no_turn));
}

#[test]
fn new_context_is_seen_only_for_the_sampled_turn() {
    let entries = vec![
        entry(1, Some("t1"), TapeEntryKind::Message),
        entry(2, Some("t1"), TapeEntryKind::ToolCall),
        entry(3, Some("t1"), TapeEntryKind::ToolResult),
        entry(4, Some("t2"), TapeEntryKind::Message),
    ];
    assert!(has_new_context_since_last_usage_sample(&entries, Some("t1"), Some(1), "t1"));
    assert!(!has_new_context_since_last_usage_sample(&entries, Some("t1"), Some(3), "t1"));
    assert!(!has_new_context_since_last_usage_sample(&entries, Some("t2"), Some(1), "t1"));
    assert!(!has_new_context_since_last_usage_sample(&entries, None, None, "t1"));
    assert!(current_turn_has_tool_result_since_usage(&entries, Some("t1"), Some(2), "t1"));
    assert!(!current_turn_has_tool_result_since_usage(&entries, Some("t1"), Some(3), "t1"));
    assert!(current_turn_has_tool_result_since_usage(&entries, Some("t1"), None, "t1"));
}

#[test]
fn pending_turn_entries_before_an_anchor_are_listed_in_order() {
    let entries = vec![
        entry(1, Some("t1"), TapeEntryKind::Message),
        entry(2, Some("t2"), TapeEntryKind::Message),
        entry(3, Some("t2"), TapeEntryKind::ToolCall),
        entry(4, Some("t2"), TapeEntryKind::Anchor),
        entry(5, Some("t2"), TapeEntryKind::ToolResult),
    ];
    assert_eq!(pending_turn_conversation_before_anchor(&entries, "t2", 4), vec![1, 2]);
    assert_eq!(pending_turn_conversation_before_anchor(&entries, "t2", 9), vec![1, 2, 4]);
    assert_eq!(pending_turn_conversation_before_anchor(&entries, "t3", 9), Vec::<usize>::new());
}

#[test]
fn fallback_compression_keeps_only_messages_of_the_current_turn() {
    let entries = vec![
        entry(1, Some("t1"), TapeEntryKind::Message),
        entry(2, Some("t1"), TapeEntryKind::ToolCall),
        entry(3, Some("t2"), TapeEntryKind::Message),
        entry(4, Some("t2"), TapeEntryKind::ToolCall),
        entry(5, Some("t2"), TapeEntryKind::ToolResult),
        entry(6, None, TapeEntryKind::Other),
        entry(7, Some("t2"), TapeEntryKind::Message),
    ];
    assert_eq!(fallback_compression_entries(&entries, Some("t2"), Some(6)), (vec![0, 1, 2], 6));
    assert_eq!(fallback_compression_entries(&entries, None, Some(6)), (Vec::new(), 0));
    assert_eq!(fallback_compression_entries(&entries, Some("t2"), None), (Vec::new(), 0));
}

#[test]
fn orphaned_tool_results_are_dropped() {
    let items = vec![
        ConversationItemRef::ToolResult("call_0".to_string()),
        ConversationItemRef::Message,
        ConversationItemRef::ToolCall("call_1".to_string()),
        ConversationItemRef::ToolResult("call_1".to_string()),
        ConversationItemRef::ToolResult("call_9".to_string()),
    ];
    assert_eq!(drop_orphaned_tool_results(&items), vec![1, 2, 3]);
    assert_eq!(compression_cutoff(&items), Some(1));
    let only_tools = vec![ConversationItemRef::ToolCall("a".to_string())];
    assert_eq!(compression_cutoff(&only_tools), None);
}

#[test]
fn writing_tools_run_one_at_a_time() {
    for name in ["write", "edit", "apply_patch", "TapeInfo", "TapeHandoff"] {
        assert!(!can_run_in_parallel(name));
    }
    assert!(can_run_in_parallel("read"));
    assert!(can_run_in_parallel("Write"));
    assert!(tool_calls_are_parallel(&vec!["read".to_string(), "grep".to_string()], &vec![false, false]));
    assert!(!tool_calls_are_parallel(&vec!["read".to_string(), "edit".to_string()], &vec![false, false]));
    assert!(!tool_calls_are_parallel(&vec!["read".to_string()], &vec![true]));
    assert!(tool_calls_are_parallel(&Vec::new(), &Vec::new()));
}

#[test]
fn tool_calls_are_gated_in_order() {
    assert_eq!(tool_call_gate(true, false, true), ToolCallGate::Cancelled);
    assert_eq!(tool_call_gate(false, false, true), ToolCallGate::Unavailable);
    assert_eq!(tool_call_gate(false, true, true), ToolCallGate::RunRuntimeTool);
    assert_eq!(tool_call_gate(false, true, false), ToolCallGate::RunTool);
    assert!(tool_result_matches_call("c1", "read", "c1", "read"));
    assert!(!tool_result_matches_call("c1", "read", "c2", "read"));
    assert!(!tool_result_matches_call("c1", "read", "c1", "write"));
}

#[test]
fn duplicate_previews_are_cut_and_flattened() {
    assert_eq!(summarize_for_duplicate_message("a\nb"), "a b");
    let long = "x".repeat(200);
    let preview = summarize_for_duplicate_message(&long);
    assert_eq!(preview.chars().count(), 161);
    assert!(preview.ends_with('…'));
    let exact = "é".repeat(160);
    assert_eq!(summarize_for_duplicate_message(&exact), exact);
    assert_eq!(tool_call_signature("read", "{\"path\":\"a\"}"), "read:{\"path\":\"a\"}");
}

#[test]
fn source_entry_ids_include_the_assistant_message_when_present() {
    assert_eq!(build_tool_source_entry_ids(Some(3), 4, 5), vec![3, 4, 5]);
    assert_eq!(build_tool_source_entry_ids(None, 4, 5), vec![4, 5]);
}

#[test]
fn trace_contexts_use_the_stable_identifiers() {
    let request = build_llm_trace_context(Some("s1"), "turn-1", "run-1", "compression", 3);
    assert_eq!(request.trace_id, "aia-trace-run-1");
    assert_eq!(request.root_span_id, "aia-span-run-1-root");
    assert_eq!(request.parent_span_id, Some("aia-span-run-1-root".to_string()));
    assert_eq!(request.span_id, "aia-span-run-1-compression-3");
    assert_eq!(request.operation_name, "summarize");
    assert_eq!(request.session_id, Some("s1".to_string()));
    let chat = build_llm_trace_context(None, "turn-1", "run-1", "completion", 0);
    assert_eq!(chat.operation_name, "chat");
    let tool = build_tool_trace_context(&request, "call_7");
    assert_eq!(tool.span_id, "aia-span-run-1-tool-call_7");
    assert_eq!(tool.parent_span_id, "aia-span-run-1-compression-3");
    assert_eq!(tool.root_span_id, "aia-span-run-1-root");
    assert_eq!(tool.operation_name, "execute_tool");
    assert_eq!(tool.parent_request_kind, "compression");
    assert_eq!(tool.parent_step_index, 3);
}

#[test]
fn question_kinds_parse_loosely() {
    assert_eq!(parse_question_kind(" Choice ").unwrap(), QuestionKind::Choice);
    assert_eq!(parse_question_kind("TEXT").unwrap(), QuestionKind::Text);
    assert_eq!(parse_question_kind("confirm").unwrap(), QuestionKind::Confirm);
    assert_eq!(
        parse_question_kind(" Rating ").unwrap_err(),
        "invalid Question kind: rating; expected choice, text, or confirm"
    );
    assert!(is_question_tool_call("Question"));
    assert!(!is_question_tool_call("question"));
}

#[test]
fn segments_are_recorded_once_and_tool_calls_are_limited() {
    let thinking = CompletionSegmentRef::Thinking("hmm".to_string());
    let text = CompletionSegmentRef::Text("hi".to_string());
    assert_eq!(next_segment_step("", None, 0, 8, false, &thinking), SegmentStep::RecordThinking);
    assert_eq!(next_segment_step("hmm", None, 0, 8, false, &thinking), SegmentStep::Skip);
    assert_eq!(next_segment_step("", None, 0, 8, false, &CompletionSegmentRef::Thinking(String::new())), SegmentStep::Skip);
    assert_eq!(next_segment_step("", None, 0, 8, false, &text), SegmentStep::RecordAssistant);
    assert_eq!(next_segment_step("", Some("hi"), 0, 8, false, &text), SegmentStep::Skip);
    assert_eq!(next_segment_step("", None, 7, 8, false, &CompletionSegmentRef::ToolUse), SegmentStep::RunToolCall);
    assert_eq!(next_segment_step("", None, 8, 8, true, &CompletionSegmentRef::ToolUse), SegmentStep::ToolCallLimit);
    assert_eq!(next_segment_step("", None, 1, 8, true, &CompletionSegmentRef::ToolUse), SegmentStep::Cancelled);
}

#[test]
fn stop_reason_must_agree_with_the_segments() {
    assert!(validate_completion_stop_reason(true, true, "ToolUse").is_ok());
    assert!(validate_completion_stop_reason(false, false, "Stop").is_ok());
    let error = validate_completion_stop_reason(true, false, "ToolUse").unwrap_err();
    assert_eq!(error.to_message(), "停止原因与完成内容不匹配：ToolUse");
    assert_eq!(after_completion(true, true), AfterCompletion::Continue);
    assert_eq!(after_completion(false, false), AfterCompletion::Finish);
    assert_eq!(after_completion(true, false), AfterCompletion::StopReasonMismatch);
    assert_eq!(after_completion(false, true), AfterCompletion::StopReasonMismatch);
}

#[test]
fn context_length_failures_are_retried_once() {
    let mut state = TurnLoopState::new(0);
    assert_eq!(state.on_completion_error(false, true), CompletionFailure::CompressAndRetry);
    assert!(state.already_compressed);
    assert_eq!(state.on_completion_error(false, true), CompletionFailure::Fail);
    assert_eq!(state.on_completion_error(true, true), CompletionFailure::Cancelled);
    let mut fresh = TurnLoopState::new(0);
    assert_eq!(fresh.on_completion_error(false, false), CompletionFailure::Fail);
    assert!(!fresh.already_compressed);
}

#[test]
fn step_index_saturates() {
    let mut state = TurnLoopState::new(u32::MAX - 1);
    state.advance_step();
    assert_eq!(state.llm_step_index, u32::MAX);
    state.advance_step();
    assert_eq!(state.llm_step_index, u32::MAX);
}

#[test]
fn turn_outcomes_and_stored_messages() {
    assert_eq!(default_turn_outcome(), TurnOutcome::Succeeded);
    assert_eq!(failure_outcome(&RuntimeError::cancelled()), TurnOutcome::Cancelled);
    assert_eq!(failure_outcome(&RuntimeError::model("x")), TurnOutcome::Failed);
    assert_eq!(stored_user_messages(Some(vec!["a".to_string(), "b".to_string()]), Some("c".to_string())), vec!["a", "b"]);
    assert_eq!(stored_user_messages(None, Some("c".to_string())), vec!["c"]);
    assert_eq!(stored_user_messages(None, None), Vec::<String>::new());
    assert_eq!(thinking_of(""), None);
    assert_eq!(thinking_of("deep"), Some("deep".to_string()));
}

#[test]
fn streamed_text_is_flushed_only_when_unrecorded() {
    assert!(should_flush_streamed_thinking("t", ""));
    assert!(!should_flush_streamed_thinking("t", "t"));
    assert!(!should_flush_streamed_thinking("", ""));
    assert!(should_flush_streamed_text("answer", None));
    assert!(!should_flush_streamed_text("answer", Some("answer")));
    assert!(completion_repeats_stream("answer", None, "answer"));
    assert!(!completion_repeats_stream("answer", None, "answ"));
    assert!(!completion_repeats_stream("", None, ""));
}

#[test]
fn blank_texts_are_dropped_and_limits_stay_positive() {
    assert_eq!(normalize_text(Some("  ".to_string())), None);
    assert_eq!(normalize_text(Some(" keep ".to_string())), Some(" keep ".to_string()));
    assert_eq!(normalize_text(None), None);
    assert_eq!(max_tool_calls_per_turn(0), 1);
    assert_eq!(max_tool_calls_per_turn(12), 12);
}

#[test]
fn parallel_results_are_recorded_by_entry_id() {
    assert_eq!(order_by_entry_id(&vec![30, 10, 20]), vec![1, 2, 0]);
    assert_eq!(order_by_entry_id(&vec![5, 5, 1]), vec![2, 0, 1]);
    assert_eq!(order_by_entry_id(&Vec::new()), Vec::<usize>::new());
}

#[test]
fn subscribers_collect_each_event_once() {
    let mut subscribers = EventSubscribers::new();
    subscribers.publish();
    let first = subscribers.subscribe();
    assert_eq!(first, 1);
    subscribers.publish();
    subscribers.publish();
    let second = subscribers.subscribe();
    assert_eq!(second, 2);
    assert_eq!(subscribers.collect_events(first).unwrap(), (1, 3));
    assert_eq!(subscribers.collect_events(first).unwrap(), (3, 3));
    subscribers.publish();
    assert_eq!(subscribers.collect_events(second).unwrap(), (3, 4));
    assert_eq!(subscribers.collect_events(first).unwrap(), (3, 4));
    let error = subscribers.collect_events(42).unwrap_err();
    assert_eq!(error.to_message(), "订阅者不存在：42");
}

#[test]
fn tool_results_are_recorded_under_the_right_event() {
    assert_eq!(tool_result_event(true, false, None), ("tool_result_recorded".to_string(), false));
    assert_eq!(tool_result_event(true, true, Some("ignored")), ("tool_result_cancelled".to_string(), true));
    assert_eq!(tool_result_event(false, false, Some("tool_call_rejected")), ("tool_call_rejected".to_string(), true));
    assert_eq!(tool_result_event(false, false, None), ("tool_call_failed".to_string(), true));
    assert_eq!(tool_result_event(false, true, None), ("tool_result_cancelled".to_string(), true));
    assert_eq!(tool_result_status(false), "ok");
    assert_eq!(tool_result_status(true), "cancelled");
}

#[test]
fn handoffs_default_to_the_handoff_anchor() {
    assert_eq!(handoff_anchor_name(None), "handoff");
    assert_eq!(handoff_anchor_name(Some("phase-2")), "phase-2");
    assert_eq!(handoff_result_message("phase-2"), "anchor added: phase-2");
}

#[test]
fn short_conversations_are_not_compressed() {
    assert!(!worth_compressing(3));
    assert!(worth_compressing(4));
}

#[test]
fn turn_start_preview_joins_all_messages() {
    let inputs = vec!["first".to_string(), "second".to_string()];
    assert_eq!(join_user_messages(&inputs), "first\nsecond");
    assert_eq!(join_user_messages(&vec!["only".to_string()]), "only");
    assert_eq!(join_user_messages(&Vec::new()), "");
    let event = turn_start_event(Some("s1"), "turn-1", &inputs);
    assert_eq!(event.session_id, Some("s1".to_string()));
    assert_eq!(event.turn_id, "turn-1");
    assert_eq!(event.user_message, "first\nsecond");
    assert!(require_user_messages(2).is_ok());
    assert_eq!(require_user_messages(0).unwrap_err().to_message(), "会话持久化失败：no user messages provided");
}

#[test]
fn kept_tool_results_always_keep_their_calls() {
    let items = vec![
        ConversationItemRef::ToolCall("a".to_string()),
        ConversationItemRef::ToolResult("a".to_string()),
        ConversationItemRef::ToolResult("b".to_string()),
        ConversationItemRef::Message,
    ];
    let kept = drop_orphaned_tool_results(&items);
    assert_eq!(kept, vec![0, 1, 3]);
    for &k in &kept {
        if let ConversationItemRef::ToolResult(id) = &items[k] {
            assert!(kept.iter().any(|&j| matches!(&items[j], ConversationItemRef::ToolCall(c) if c == id)));
        }
    }
}

#[test]
fn tool_answers_are_checked_against_their_call() {
    use_prepare_tool_answer();
}

fn use_prepare_tool_answer() {
    let ok = ToolAnswer::Completed { tool_name: "read".to_string(), invocation_id: "c1".to_string() };
    assert!(matches!(prepare_tool_answer("read", "c1", "t1", false, &ok), PreparedToolCall::Completed { failed: false }));
    assert!(matches!(prepare_tool_answer("read", "c1", "t1", true, &ok), PreparedToolCall::Completed { failed: true }));
    match prepare_tool_answer("write", "c1", "t1", false, &ok) {
        PreparedToolCall::Failed { event_name, error } => {
            assert_eq!(event_name, "tool_result_rejected");
            assert_eq!(error.to_message(), "工具结果不匹配：调用 write#c1, 结果 read#c1");
        }
        other => panic!("unexpected: {other:?}"),
    }
    let pending = ToolAnswer::Suspended {
        tool_name: "Question".to_string(),
        invocation_id: "c2".to_string(),
        turn_id: "t1".to_string(),
    };
    assert!(matches!(prepare_tool_answer("Question", "c2", "t1", false, &pending), PreparedToolCall::Suspended));
    match prepare_tool_answer("Question", "c2", "t9", false, &pending) {
        PreparedToolCall::Failed { event_name, error } => {
            assert_eq!(event_name, "tool_request_rejected");
            assert_eq!(
                error.to_message(),
                "工具执行失败：pending tool request mismatch: call Question#c2, request Question#c2"
            );
        }
        other => panic!("unexpected: {other:?}"),
    }
    match prepare_tool_answer("read", "c1", "t1", false, &ToolAnswer::Failed("no such file".to_string())) {
        PreparedToolCall::Failed { event_name, error } => {
            assert_eq!(event_name, "tool_call_failed");
            assert_eq!(error.to_message(), "工具执行失败：no such file");
        }
        other => panic!("unexpected: {other:?}"),
    }
}

#[test]
fn turn_steps_follow_the_model_answers() {
    let mut state = TurnLoopState::new(0);
    assert_eq!(state.step(TurnEvent::BeforeRequest { aborted: false }), TurnAction::SendRequest);
    assert_eq!(state.llm_step_index, 1);
    assert_eq!(
        state.step(TurnEvent::RequestFailed { cancelled_error: false, context_length_error: true }),
        TurnAction::Compress
    );
    assert_eq!(state.step(TurnEvent::Compressed { ok: true }), TurnAction::Continue);
    assert_eq!(state.llm_step_index, 2);
    assert_eq!(state.step(TurnEvent::BeforeRequest { aborted: false }), TurnAction::SendRequest);
    assert_eq!(
        state.step(TurnEvent::RequestFailed { cancelled_error: false, context_length_error: true }),
        TurnAction::FailModelError
    );
    let mut fresh = TurnLoopState::new(0);
    assert_eq!(
        fresh.step(TurnEvent::Answered { aborted: false, stop_is_tool_use: true, has_tool_use_segment: true }),
        TurnAction::ProcessSegments
    );
    assert_eq!(
        fresh.step(TurnEvent::Answered { aborted: false, stop_is_tool_use: false, has_tool_use_segment: true }),
        TurnAction::FailStopReasonMismatch
    );
    assert_eq!(fresh.step(TurnEvent::SegmentsDone { stop_is_tool_use: true, saw_tool_calls: true }), TurnAction::Continue);
    assert_eq!(fresh.step(TurnEvent::SegmentsDone { stop_is_tool_use: false, saw_tool_calls: false }), TurnAction::Finish);
    assert_eq!(fresh.step(TurnEvent::Compressed { ok: false }), TurnAction::FailModelError);
    assert_eq!(fresh.step(TurnEvent::BeforeRequest { aborted: true }), TurnAction::FailCancelled);
    assert_eq!(
        fresh.step(TurnEvent::Answered { aborted: true, stop_is_tool_use: false, has_tool_use_segment: false }),
        TurnAction::FailCancelled
    );
}

#[test]
fn preflight_compression_follows_tool_results_and_pressure() {
    let entries = vec![
        entry(1, Some("t1"), TapeEntryKind::Message),
        entry(2, Some("t1"), TapeEntryKind::ToolCall),
        entry(3, Some("t1"), TapeEntryKind::ToolResult),
    ];
    // A tool result since the sample compresses whatever the pressure.
    assert!(should_preflight_compress(&entries, Some("t1"), Some(2), "t1", false));
    // New context but no tool result: only under pressure.
    assert!(!should_preflight_compress(&entries, Some("t1"), Some(1), "t2", true));
    let no_tool_result = vec![
        entry(1, Some("t1"), TapeEntryKind::Message),
        entry(2, Some("t1"), TapeEntryKind::Message),
    ];
    assert!(!should_preflight_compress(&no_tool_result, Some("t1"), Some(1), "t1", false));
    assert!(should_preflight_compress(&no_tool_result, Some("t1"), Some(1), "t1", true));
    // Nothing new since the sample: no compression even under pressure.
    assert!(!should_preflight_compress(&no_tool_result, Some("t1"), Some(2), "t1", true));
}

#[test]
fn subscribers_that_joined_together_collect_the_same_events() {
    let mut subscribers = EventSubscribers::new();
    subscribers.publish();
    let first = subscribers.subscribe();
    let second = subscribers.subscribe();
    subscribers.publish();
    subscribers.publish();
    let third = subscribers.subscribe();
    subscribers.publish();
    assert_eq!(subscribers.collect_events(third).unwrap(), (3, 4));
    assert_eq!(subscribers.collect_events(first).unwrap(), (1, 4));
    assert_eq!(subscribers.collect_events(second).unwrap(), (1, 4));
    assert_eq!(subscribers.collect_events(second).unwrap(), (4, 4));
}

#[test]
fn a_cloned_runtime_error_keeps_its_message_and_flag() {
    let cancelled = RuntimeError::cancelled();
    let copy = cancelled.clone();
    assert!(copy.is_cancelled());
    assert_eq!(copy.to_message(), cancelled.to_message());
    let failed = RuntimeError::tool("boom");
    let copy = failed.clone();
    assert!(!copy.is_cancelled());
    assert_eq!(copy.to_message(), failed.to_message());
}

#[test]
fn disabled_tools_are_hidden_and_runtime_tools_come_last() {
    let names = |v: &[&str]| v.iter().map(|s| s.to_string()).collect::<Vec<String>>();
    let visible = aia::tool_policy::visible_tool_names(
        &names(&["shell", "read", "write", "grep"]),
        &names(&["write", "unknown"]),
        &names(&["TapeInfo", "TapeHandoff", "Question"]),
    );
    assert_eq!(visible, names(&["shell", "read", "grep", "TapeInfo", "TapeHandoff", "Question"]));
    let none_disabled = aia::tool_policy::visible_tool_names(&names(&["read"]), &Vec::new(), &Vec::new());
    assert_eq!(none_disabled, names(&["read"]));
}

#[test]
fn refused_tool_calls_are_recorded_under_their_events() {
    let (event, error) = refused_tool_call(ToolCallGate::Cancelled, "shell").unwrap();
    assert_eq!(event, "tool_call_cancelled");
    assert!(error.is_cancelled());
    assert_eq!(error.to_message(), RuntimeError::cancelled().to_message());
    let (event, error) = refused_tool_call(ToolCallGate::Unavailable, "shell").unwrap();
    assert_eq!(event, "tool_call_rejected");
    assert!(!error.is_cancelled());
    assert_eq!(error.to_message(), RuntimeError::tool_unavailable("shell").to_message());
    assert!(refused_tool_call(ToolCallGate::RunTool, "shell").is_none());
    assert!(refused_tool_call(ToolCallGate::RunRuntimeTool, "TapeInfo").is_none());
}

#[test]
fn tool_calls_so_far_count_recorded_and_queued_calls() {
    assert_eq!(tool_calls_so_far(0, 0), 0);
    assert_eq!(tool_calls_so_far(3, 2), 5);
    let count = tool_calls_so_far(1, 1);
    assert_eq!(
        next_segment_step("", None, count, 2, false, &CompletionSegmentRef::ToolUse),
        SegmentStep::ToolCallLimit
    );
    assert_eq!(
        next_segment_step("", None, tool_calls_so_far(1, 0), 2, false, &CompletionSegmentRef::ToolUse),
        SegmentStep::RunToolCall
    );
}

#[test]
fn question_kinds_ignore_unicode_white_space_around_them() {
    assert_eq!(parse_question_kind("\u{3000}Text\u{a0}\n"), Ok(QuestionKind::Text));
    assert_eq!(
        parse_question_kind(" \t "),
        Err("invalid Question kind: ; expected choice, text, or confirm".to_string())
    );
}
