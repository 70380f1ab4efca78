//! The decisions of one agent turn: what to do with each segment of a
//! completion, when a failed completion is retried after compressing the
//! context, when the turn goes on, ends or fails, and in which order tool
//! calls that ran in parallel are recorded.
use vstd::prelude::*;

use crate::runtime_error::RuntimeError;
use crate::text::{opt_str, opt_text, owned, push_text, text_eq, trim, trimmed};

verus! {

/// How a turn ended.
#[derive(Debug, Clone, Copy, PartialEq, Eq, Structural)]
pub enum TurnOutcome {
    Succeeded,
    Failed,
    Cancelled,
    WaitingForQuestion,
}

/// The outcome assumed for stored turns that do not record one.
pub fn default_turn_outcome() -> (r: TurnOutcome)
    ensures
        r == TurnOutcome::Succeeded,
{
    TurnOutcome::Succeeded
}

/// The outcome of a turn that stopped on `error`.
pub fn failure_outcome(error: &RuntimeError) -> (r: TurnOutcome)
    ensures
        r == (if error@.1 {
            TurnOutcome::Cancelled
        } else {
            TurnOutcome::Failed
        }),
{
    if error.is_cancelled() {
        TurnOutcome::Cancelled
    } else {
        TurnOutcome::Failed
    }
}

/// The user messages of a stored turn: the list when it is there, else
/// the single message of the older format, else none.
pub fn stored_user_messages(user_messages: Option<Vec<String>>, user_message: Option<String>) -> (r:
    Vec<String>)
    ensures
        r@ == (match user_messages {
            Some(messages) => messages@,
            None => match user_message {
                Some(message) => seq![message],
                None => Seq::<String>::empty(),
            },
        }),
{
    match user_messages {
        Some(messages) => messages,
        None => match user_message {
            Some(message) => {
                let mut v: Vec<String> = Vec::new();
                v.push(message);
                assert(v@ =~= seq![message]);
                v
            },
            None => Vec::new(),
        },
    }
}

/// The aggregated thinking of a turn, absent when there was none.
pub fn thinking_of(aggregated_thinking: &str) -> (r: Option<String>)
    ensures
        match r {
            Some(t) => aggregated_thinking@.len() > 0 && t@ == aggregated_thinking@,
            None => aggregated_thinking@.len() == 0,
        },
{
    if aggregated_thinking.is_empty() {
        None
    } else {
        Some(crate::text::owned(aggregated_thinking))
    }
}

/// One segment of a completion, as the turn reads it.
#[derive(Debug)]
pub enum CompletionSegmentRef {
    Thinking(String),
    Text(String),
    ToolUse,
}

/// What the turn does with a segment.
#[derive(Debug, Clone, Copy, PartialEq, Eq, Structural)]
pub enum SegmentStep {
    /// Empty, or already recorded from the stream.
    Skip,
    RecordThinking,
    RecordAssistant,
    /// The turn has used up its tool calls: it fails.
    ToolCallLimit,
    /// The turn was cancelled: it fails.
    Cancelled,
    RunToolCall,
}

/// The step for a segment, given what the turn has recorded so far.
pub open spec fn segment_step(
    aggregated_thinking: Seq<char>,
    last_assistant_text: Option<Seq<char>>,
    tool_calls_so_far: u64,
    max_tool_calls: u64,
    aborted: bool,
    segment: CompletionSegmentRef,
) -> SegmentStep {
    match segment {
        CompletionSegmentRef::Thinking(text) => if text@.len() == 0 || aggregated_thinking
            == text@ {
            SegmentStep::Skip
        } else {
            SegmentStep::RecordThinking
        },
        CompletionSegmentRef::Text(text) => if text@.len() == 0 || last_assistant_text == Some(
            text@,
        ) {
            SegmentStep::Skip
        } else {
            SegmentStep::RecordAssistant
        },
        CompletionSegmentRef::ToolUse => if tool_calls_so_far >= max_tool_calls {
            SegmentStep::ToolCallLimit
        } else if aborted {
            SegmentStep::Cancelled
        } else {
            SegmentStep::RunToolCall
        },
    }
}

/// How many tool calls a turn has made when it meets a new tool-use
/// segment: the invocations already recorded plus the calls queued to run
/// in parallel.
pub fn tool_calls_so_far(recorded_invocations: usize, queued_calls: usize) -> (r: u64)
    requires
        recorded_invocations + queued_calls <= u64::MAX,
    ensures
        r == recorded_invocations + queued_calls,
{
    (recorded_invocations as u64) + (queued_calls as u64)
}

/// The step for a segment of a completion; `tool_calls_so_far` is the
/// count `tool_calls_so_far` computes.
pub fn next_segment_step(
    aggregated_thinking: &str,
    last_assistant_text: Option<&str>,
    tool_calls_so_far: u64,
    max_tool_calls: u64,
    aborted: bool,
    segment: &CompletionSegmentRef,
) -> (r: SegmentStep)
    ensures
        r == segment_step(
            aggregated_thinking@,
            opt_str(last_assistant_text),
            tool_calls_so_far,
            max_tool_calls,
            aborted,
            *segment,
        ),
{
    match segment {
        CompletionSegmentRef::Thinking(text) => {
            if text.as_str().is_empty() || text_eq(aggregated_thinking, text.as_str()) {
                SegmentStep::Skip
            } else {
                SegmentStep::RecordThinking
            }
        },
        CompletionSegmentRef::Text(text) => {
            let repeated = match last_assistant_text {
                Some(last) => text_eq(last, text.as_str()),
                None => false,
            };
            if text.as_str().is_empty() || repeated {
                SegmentStep::Skip
            } else {
                SegmentStep::RecordAssistant
            }
        },
        CompletionSegmentRef::ToolUse => {
            if tool_calls_so_far >= max_tool_calls {
                SegmentStep::ToolCallLimit
            } else if aborted {
                SegmentStep::Cancelled
            } else {
                SegmentStep::RunToolCall
            }
        },
    }
}

/// Law: a turn never runs more tool calls than allowed: a tool-use segment
/// runs only while fewer calls than the limit have been made.
pub proof fn law_tool_calls_stay_within_limit(
    aggregated_thinking: Seq<char>,
    last_assistant_text: Option<Seq<char>>,
    tool_calls_so_far: u64,
    max_tool_calls: u64,
    aborted: bool,
    segment: CompletionSegmentRef,
)
    ensures
        segment_step(
            aggregated_thinking,
            last_assistant_text,
            tool_calls_so_far,
            max_tool_calls,
            aborted,
            segment,
        ) == SegmentStep::RunToolCall ==> tool_calls_so_far < max_tool_calls && !aborted,
{
}

/// Whether the stop reason agrees with the segments: a completion stops
/// for tool use exactly when it holds a tool-use segment.
pub fn validate_completion_stop_reason(
    stop_is_tool_use: bool,
    has_tool_use_segment: bool,
    stop_reason: &str,
) -> (r: Result<(), RuntimeError>)
    ensures
        match r {
            Ok(()) => stop_is_tool_use == has_tool_use_segment,
            Err(e) => stop_is_tool_use != has_tool_use_segment && e@ == (
                "停止原因与完成内容不匹配："@ + stop_reason@,
                false,
            ),
        },
{
    if stop_is_tool_use == has_tool_use_segment {
        Ok(())
    } else {
        Err(RuntimeError::stop_reason_mismatch(stop_reason))
    }
}

/// What a turn does after a completion's segments are processed.
#[derive(Debug, Clone, Copy, PartialEq, Eq, Structural)]
pub enum AfterCompletion {
    /// Tools ran: ask the model again.
    Continue,
    /// The stop reason disagrees with what was found: the turn fails.
    StopReasonMismatch,
    /// The model answered without tools: the turn succeeds.
    Finish,
}

/// The step after a completion that stopped for tool use (or not) and in
/// which tool calls were (or were not) found.
pub fn after_completion(stop_is_tool_use: bool, saw_tool_calls: bool) -> (r: AfterCompletion)
    ensures
        r == (if stop_is_tool_use != saw_tool_calls {
            AfterCompletion::StopReasonMismatch
        } else if stop_is_tool_use {
            AfterCompletion::Continue
        } else {
            AfterCompletion::Finish
        }),
{
    if stop_is_tool_use {
        if !saw_tool_calls {
            AfterCompletion::StopReasonMismatch
        } else {
            AfterCompletion::Continue
        }
    } else if saw_tool_calls {
        AfterCompletion::StopReasonMismatch
    } else {
        AfterCompletion::Finish
    }
}

/// What a turn does when the model request fails.
#[derive(Debug, Clone, Copy, PartialEq, Eq, Structural)]
pub enum CompletionFailure {
    /// The request was cancelled: the turn ends as cancelled.
    Cancelled,
    /// The context was too long: compress it and ask again.
    CompressAndRetry,
    /// Any other failure: the turn fails with the model's error.
    Fail,
}

/// The state a turn carries from one model request to the next.
#[derive(Debug, Clone, Copy, PartialEq, Eq, Structural)]
pub struct TurnLoopState {
    /// Whether this turn already compressed its context after a
    /// context-length failure.
    pub already_compressed: bool,
    /// The index of the next model request of the turn.
    pub llm_step_index: u32,
}

/// The decision on a failed request, and the state after it.
pub open spec fn completion_failure(
    state: TurnLoopState,
    cancelled_error: bool,
    context_length_error: bool,
) -> (CompletionFailure, TurnLoopState) {
    if cancelled_error {
        (CompletionFailure::Cancelled, state)
    } else if !state.already_compressed && context_length_error {
        (CompletionFailure::CompressAndRetry, TurnLoopState { already_compressed: true, ..state })
    } else {
        (CompletionFailure::Fail, state)
    }
}

/// `n + 1`, or `u32::MAX` when `n` is already there.
pub open spec fn next_step(n: u32) -> u32 {
    if n < u32::MAX {
        (n + 1) as u32
    } else {
        u32::MAX
    }
}

impl TurnLoopState {
    /// A turn that has not compressed yet, at request `llm_step_index`.
    pub fn new(llm_step_index: u32) -> (r: Self)
        ensures
            r == (TurnLoopState { already_compressed: false, llm_step_index }),
    {
        TurnLoopState { already_compressed: false, llm_step_index }
    }

    /// Counts one more model request (or compression) of the turn.
    pub fn advance_step(&mut self)
        ensures
            *final(self) == (TurnLoopState {
                llm_step_index: next_step(old(self).llm_step_index),
                ..*old(self)
            }),
    {
        self.llm_step_index = self.llm_step_index.saturating_add(1);
    }

    /// Decides what to do when the model request fails: a cancellation
    /// ends the turn, a context-length failure is retried once after a
    /// compression, anything else fails the turn.
    pub fn on_completion_error(&mut self, cancelled_error: bool, context_length_error: bool) -> (r:
        CompletionFailure)
        ensures
            (r, *final(self)) == completion_failure(
                *old(self),
                cancelled_error,
                context_length_error,
            ),
            cancelled_error ==> r == CompletionFailure::Cancelled && *final(self) == *old(self),
    {
        if cancelled_error {
            return CompletionFailure::Cancelled;
        }
        if !self.already_compressed && context_length_error {
            self.already_compressed = true;
            return CompletionFailure::CompressAndRetry;
        }
        CompletionFailure::Fail
    }
}

/// Whether text streamed before a completion must be recorded first: the
/// streamed thinking when nothing of it was recorded yet.
pub fn should_flush_streamed_thinking(streamed_thinking: &str, aggregated_thinking: &str) -> (r:
    bool)
    ensures
        r == (streamed_thinking@.len() > 0 && aggregated_thinking@.len() == 0),
{
    !streamed_thinking.is_empty() && aggregated_thinking.is_empty()
}

/// Whether the streamed answer must be recorded before the completion's
/// segments: nothing was recorded yet and the stream carried the answer.
pub fn should_flush_streamed_text(
    streamed_assistant_text: &str,
    last_assistant_text: Option<&str>,
) -> (r: bool)
    ensures
        r == (streamed_assistant_text@.len() > 0 && last_assistant_text is None),
{
    !streamed_assistant_text.is_empty() && last_assistant_text.is_none()
}

/// Whether the completion's answer is exactly what was streamed and has
/// not been recorded yet.
pub fn completion_repeats_stream(
    assistant_text: &str,
    last_assistant_text: Option<&str>,
    streamed_assistant_text: &str,
) -> (r: bool)
    ensures
        r == (assistant_text@.len() > 0 && last_assistant_text is None && streamed_assistant_text@
            == assistant_text@),
{
    !assistant_text.is_empty() && last_assistant_text.is_none() && text_eq(
        streamed_assistant_text,
        assistant_text,
    )
}

/// Invocation `a` is recorded before invocation `b`: by tape entry id, and
/// in finishing order among equal ids.
pub open spec fn recorded_before(entry_ids: Seq<u64>, a: usize, b: usize) -> bool {
    entry_ids[a as int] < entry_ids[b as int] || (entry_ids[a as int] == entry_ids[b as int] && a
        < b)
}

/// The order in which tool calls that ran in parallel are recorded: the
/// positions of `entry_ids` (given in finishing order), sorted by entry id
/// and, for equal ids, kept in finishing order.
pub fn order_by_entry_id(entry_ids: &Vec<u64>) -> (r: Vec<usize>)
    ensures
        r@.len() == entry_ids@.len(),
        forall|a: int| 0 <= a < r@.len() ==> r@[a] < entry_ids@.len(),
        forall|a: int, b: int|
            0 <= a < b < r@.len() ==> recorded_before(entry_ids@, #[trigger] r@[a], #[trigger] r@[b]),
{
    let mut out: Vec<usize> = Vec::new();
    let mut i: usize = 0;
    while i < entry_ids.len()
        invariant
            i <= entry_ids@.len(),
            out@.len() == i,
            forall|a: int| 0 <= a < out@.len() ==> out@[a] < i,
            forall|a: int, b: int|
                0 <= a < b < out@.len() ==> recorded_before(
                    entry_ids@,
                    #[trigger] out@[a],
                    #[trigger] out@[b],
                ),
        decreases entry_ids@.len() - i,
    {
        let key = entry_ids[i];
        let mut q: usize = 0;
        while q < out.len()
            invariant
                q <= out@.len(),
                out@.len() == i,
                i < entry_ids@.len(),
                key == entry_ids@[i as int],
                forall|a: int| 0 <= a < out@.len() ==> out@[a] < i,
                forall|a: int| 0 <= a < q ==> entry_ids@[#[trigger] out@[a] as int] <= key,
            ensures
                q <= out@.len(),
                forall|a: int| 0 <= a < q ==> entry_ids@[#[trigger] out@[a] as int] <= key,
                q == out@.len() || entry_ids@[out@[q as int] as int] > key,
            decreases out@.len() - q,
        {
            if entry_ids[out[q]] > key {
                break;
            }
            q = q + 1;
        }
        let ghost before = out@;
        assert forall|b: int| q <= b < before.len() implies entry_ids@[#[trigger] before[b] as int]
            > key by {
            if b > q {
                assert(recorded_before(entry_ids@, before[q as int], before[b]));
            }
        }
        out.insert(q, i);
        assert forall|a: int, b: int| 0 <= a < b < out@.len() implies recorded_before(
            entry_ids@,
            #[trigger] out@[a],
            #[trigger] out@[b],
        ) by {
            if a < q && b < q {
                assert(out@[a] == before[a] && out@[b] == before[b]);
            } else if a < q && b == q {
                assert(out@[a] == before[a]);
            } else if a < q && b > q {
                assert(out@[a] == before[a] && out@[b] == before[b - 1]);
                assert(recorded_before(entry_ids@, before[a], before[b - 1]));
            } else if a == q {
                assert(out@[b] == before[b - 1]);
            } else {
                assert(out@[a] == before[a - 1] && out@[b] == before[b - 1]);
                assert(recorded_before(entry_ids@, before[a - 1], before[b - 1]));
            }
        }
        i = i + 1;
    }
    out
}

/// A configured text that hooks may have changed: kept unless it is blank.
pub fn normalize_text(value: Option<String>) -> (r: Option<String>)
    ensures
        opt_text(r) == (match value {
            Some(text) => if trimmed(text@).len() > 0 {
                Some(text@)
            } else {
                None
            },
            None => None,
        }),
{
    match value {
        Some(text) => {
            if trim(text.as_str()).as_str().is_empty() {
                None
            } else {
                Some(text)
            }
        },
        None => None,
    }
}

/// The tool-call limit of a turn: at least one call is always allowed.
pub fn max_tool_calls_per_turn(configured: u64) -> (r: u64)
    ensures
        r == (if configured >= 1 {
            configured
        } else {
            1
        }),
{
    if configured >= 1 {
        configured
    } else {
        1
    }
}

/// The input a hook may rewrite before it enters the tape.
#[derive(Clone, Debug, PartialEq, Eq)]
pub struct InputEvent {
    pub session_id: Option<String>,
    pub input: String,
}

/// What hooks learn when a turn starts.
#[derive(Clone, Debug, PartialEq, Eq)]
pub struct TurnStartEvent {
    pub session_id: Option<String>,
    pub turn_id: String,
    pub user_message: String,
}

/// The messages joined with line feeds.
pub open spec fn joined_lines(messages: Seq<Seq<char>>) -> Seq<char>
    decreases messages.len(),
{
    if messages.len() == 0 {
        Seq::empty()
    } else if messages.len() == 1 {
        messages[0]
    } else {
        joined_lines(messages.drop_last()) + "\n"@ + messages.last()
    }
}

/// The preview of a turn's user messages: all of them, one per line.
pub fn join_user_messages(user_inputs: &Vec<String>) -> (r: String)
    ensures
        r@ == joined_lines(user_inputs@.map_values(|m: String| m@)),
{
    let ghost views = user_inputs@.map_values(|m: String| m@);
    let mut out = String::new();
    let mut i: usize = 0;
    while i < user_inputs.len()
        invariant
            i <= user_inputs@.len(),
            views == user_inputs@.map_values(|m: String| m@),
            out@ == joined_lines(views.take(i as int)),
        decreases user_inputs@.len() - i,
    {
        assert(views.take(i + 1).drop_last() =~= views.take(i as int));
        if i > 0 {
            push_text(&mut out, "\n");
        }
        push_text(&mut out, user_inputs[i].as_str());
        proof {
            if i == 0 {
                assert(out@ =~= views.take(1)[0]);
            }
        }
        i = i + 1;
    }
    assert(views.take(user_inputs@.len() as int) =~= views);
    out
}

/// The event that tells hooks a turn started, with its messages as one
/// preview.
pub fn turn_start_event(session_id: Option<&str>, turn_id: &str, user_inputs: &Vec<String>) -> (r:
    TurnStartEvent)
    ensures
        opt_text(r.session_id) == opt_str(session_id),
        r.turn_id@ == turn_id@,
        r.user_message@ == joined_lines(user_inputs@.map_values(|m: String| m@)),
{
    TurnStartEvent {
        session_id: match session_id {
            Some(s) => Some(owned(s)),
            None => None,
        },
        turn_id: owned(turn_id),
        user_message: join_user_messages(user_inputs),
    }
}

/// A turn needs at least one user message.
pub fn require_user_messages(count: usize) -> (r: Result<(), RuntimeError>)
    ensures
        match r {
            Ok(()) => count > 0,
            Err(e) => count == 0 && e@ == ("会话持久化失败："@ + "no user messages provided"@, false),
        },
{
    if count == 0 {
        Err(RuntimeError::session("no user messages provided"))
    } else {
        Ok(())
    }
}

/// What happened in a turn since its last decision.
#[derive(Debug, Clone, Copy, PartialEq, Eq, Structural)]
pub enum TurnEvent {
    /// The turn is about to ask the model.
    BeforeRequest { aborted: bool },
    /// The model request failed.
    RequestFailed { cancelled_error: bool, context_length_error: bool },
    /// The compression that followed a context-length failure ended.
    Compressed { ok: bool },
    /// The model answered.
    Answered { aborted: bool, stop_is_tool_use: bool, has_tool_use_segment: bool },
    /// The segments of the answer were recorded and its tools ran.
    SegmentsDone { stop_is_tool_use: bool, saw_tool_calls: bool },
}

/// What the turn does next.
#[derive(Debug, Clone, Copy, PartialEq, Eq, Structural)]
pub enum TurnAction {
    /// Ask the model (the request index has moved on).
    SendRequest,
    /// Compress the context, then report how it went.
    Compress,
    /// Start over with a new request.
    Continue,
    /// Record the segments of the answer and run its tools.
    ProcessSegments,
    /// The turn succeeded.
    Finish,
    /// The turn fails as cancelled.
    FailCancelled,
    /// The turn fails with the model's error.
    FailModelError,
    /// The turn fails: the stop reason disagrees with the answer.
    FailStopReasonMismatch,
}

/// The next state and action of a turn after `event`.
pub open spec fn turn_step(state: TurnLoopState, event: TurnEvent) -> (TurnLoopState, TurnAction) {
    match event {
        TurnEvent::BeforeRequest { aborted } => if aborted {
            (state, TurnAction::FailCancelled)
        } else {
            (
                TurnLoopState { llm_step_index: next_step(state.llm_step_index), ..state },
                TurnAction::SendRequest,
            )
        },
        TurnEvent::RequestFailed { cancelled_error, context_length_error } => {
            let (failure, next) = completion_failure(state, cancelled_error, context_length_error);
            (
                next,
                match failure {
                    CompletionFailure::Cancelled => TurnAction::FailCancelled,
                    CompletionFailure::CompressAndRetry => TurnAction::Compress,
                    CompletionFailure::Fail => TurnAction::FailModelError,
                },
            )
        },
        TurnEvent::Compressed { ok } => if ok {
            (
                TurnLoopState { llm_step_index: next_step(state.llm_step_index), ..state },
                TurnAction::Continue,
            )
        } else {
            (state, TurnAction::FailModelError)
        },
        TurnEvent::Answered { aborted, stop_is_tool_use, has_tool_use_segment } => if aborted {
            (state, TurnAction::FailCancelled)
        } else if stop_is_tool_use != has_tool_use_segment {
            (state, TurnAction::FailStopReasonMismatch)
        } else {
            (state, TurnAction::ProcessSegments)
        },
        TurnEvent::SegmentsDone { stop_is_tool_use, saw_tool_calls } => if stop_is_tool_use
            != saw_tool_calls {
            (state, TurnAction::FailStopReasonMismatch)
        } else if stop_is_tool_use {
            (state, TurnAction::Continue)
        } else {
            (state, TurnAction::Finish)
        },
    }
}

impl TurnLoopState {
    /// Decides what the turn does after `event`.
    pub fn step(&mut self, event: TurnEvent) -> (r: TurnAction)
        ensures
            (*final(self), r) == turn_step(*old(self), event),
            event matches TurnEvent::RequestFailed { cancelled_error: true, .. } ==> r
                == TurnAction::FailCancelled,
    {
        match event {
            TurnEvent::BeforeRequest { aborted } => {
                if aborted {
                    TurnAction::FailCancelled
                } else {
                    self.advance_step();
                    TurnAction::SendRequest
                }
            },
            TurnEvent::RequestFailed { cancelled_error, context_length_error } => {
                match self.on_completion_error(cancelled_error, context_length_error) {
                    CompletionFailure::Cancelled => TurnAction::FailCancelled,
                    CompletionFailure::CompressAndRetry => TurnAction::Compress,
                    CompletionFailure::Fail => TurnAction::FailModelError,
                }
            },
            TurnEvent::Compressed { ok } => {
                if ok {
                    self.advance_step();
                    TurnAction::Continue
                } else {
                    TurnAction::FailModelError
                }
            },
            TurnEvent::Answered { aborted, stop_is_tool_use, has_tool_use_segment } => {
                if aborted {
                    TurnAction::FailCancelled
                } else if stop_is_tool_use != has_tool_use_segment {
                    TurnAction::FailStopReasonMismatch
                } else {
                    TurnAction::ProcessSegments
                }
            },
            TurnEvent::SegmentsDone { stop_is_tool_use, saw_tool_calls } => {
                match after_completion(stop_is_tool_use, saw_tool_calls) {
                    AfterCompletion::Continue => TurnAction::Continue,
                    AfterCompletion::StopReasonMismatch => TurnAction::FailStopReasonMismatch,
                    AfterCompletion::Finish => TurnAction::Finish,
                }
            },
        }
    }
}

/// The state after a sequence of events.
pub open spec fn turn_after(state: TurnLoopState, events: Seq<TurnEvent>) -> TurnLoopState
    decreases events.len(),
{
    if events.len() == 0 {
        state
    } else {
        turn_step(turn_after(state, events.drop_last()), events.last()).0
    }
}

/// Law: once a turn has compressed its context after a context-length
/// failure, no sequence of later events makes it compress again: the retry
/// happens at most once per turn.
pub proof fn law_turn_compresses_at_most_once(
    state: TurnLoopState,
    events: Seq<TurnEvent>,
    next: TurnEvent,
)
    requires
        state.already_compressed,
    ensures
        turn_after(state, events).already_compressed,
        turn_step(turn_after(state, events), next).1 != TurnAction::Compress,
    decreases events.len(),
{
    if events.len() > 0 {
        law_turn_compresses_at_most_once(state, events.drop_last(), events.last());
    }
}

/// Law: a cancelled turn asks the model nothing more and ends as cancelled,
/// whether it notices before a request or after an answer.
pub proof fn law_cancelled_turn_stops(state: TurnLoopState, stop_is_tool_use: bool, has_tool_use_segment: bool)
    ensures
        turn_step(state, TurnEvent::BeforeRequest { aborted: true }).1 == TurnAction::FailCancelled,
        turn_step(
            state,
            TurnEvent::Answered { aborted: true, stop_is_tool_use, has_tool_use_segment },
        ).1 == TurnAction::FailCancelled,
        turn_step(state, TurnEvent::RequestFailed { cancelled_error: true, context_length_error: true }).1
            == TurnAction::FailCancelled,
{
}

/// Law: a request that failed because the turn was cancelled always ends the
/// turn as cancelled, in every state and whether or not the model also
/// reported a context-length failure; the state is left as it was, and the
/// turn is never failed as a model error nor sent to compression.
pub proof fn law_cancelled_request_fails_as_cancelled(
    state: TurnLoopState,
    context_length_error: bool,
)
    ensures
        completion_failure(state, true, context_length_error).0 == CompletionFailure::Cancelled,
        completion_failure(state, true, context_length_error).1 == state,
        turn_step(
            state,
            TurnEvent::RequestFailed { cancelled_error: true, context_length_error },
        ).1 == TurnAction::FailCancelled,
        turn_step(
            state,
            TurnEvent::RequestFailed { cancelled_error: true, context_length_error },
        ).0 == state,
{
}

/// Law: a request that failed without cancellation is retried after a
/// compression only for a context-length failure the turn has not yet
/// compressed for; any other failure fails the turn with the model's error.
pub proof fn law_uncancelled_failure_compresses_once_then_fails(
    state: TurnLoopState,
    context_length_error: bool,
)
    ensures
        turn_step(
            state,
            TurnEvent::RequestFailed { cancelled_error: false, context_length_error },
        ).1 == (if context_length_error && !state.already_compressed {
            TurnAction::Compress
        } else {
            TurnAction::FailModelError
        }),
{
}

} // verus!
