//! The runtime's rules for tool calls: which may run in parallel, which are
//! refused before they run, which results are accepted, how repeated calls
//! are recognized, and the trace identifiers of requests and tool calls.
use vstd::prelude::*;

use crate::config::{build_request_span_id, build_root_span_id, build_tool_span_id, build_trace_id};
use crate::runtime_error::RuntimeError;
use crate::text::{
    ascii_lower, opt_str, opt_text, owned, push_char, push_text, text_eq, to_ascii_lowercase, trim,
    trimmed,
};

verus! {

/// Tools that change the workspace or the tape: they run one at a time.
pub open spec fn serial_tool_names() -> Seq<Seq<char>> {
    seq!["write"@, "edit"@, "apply_patch"@, "TapeInfo"@, "TapeHandoff"@]
}

/// Whether a call of tool `tool_name` may run beside other calls.
pub fn can_run_in_parallel(tool_name: &str) -> (r: bool)
    ensures
        r == !serial_tool_names().contains(tool_name@),
{
    let serial = text_eq(tool_name, "write") || text_eq(tool_name, "edit") || text_eq(
        tool_name,
        "apply_patch",
    ) || text_eq(tool_name, "TapeInfo") || text_eq(tool_name, "TapeHandoff");
    proof {
        let names = serial_tool_names();
        if serial {
            if tool_name@ == "write"@ {
                assert(names[0] == tool_name@);
            } else if tool_name@ == "edit"@ {
                assert(names[1] == tool_name@);
            } else if tool_name@ == "apply_patch"@ {
                assert(names[2] == tool_name@);
            } else if tool_name@ == "TapeInfo"@ {
                assert(names[3] == tool_name@);
            } else {
                assert(names[4] == tool_name@);
            }
        }
    }
    !serial
}

/// Whether every call of a completion may run in parallel: each tool may,
/// and none needs the runtime's own context.
pub fn tool_calls_are_parallel(tool_names: &Vec<String>, needs_runtime_context: &Vec<bool>) -> (r:
    bool)
    requires
        tool_names@.len() == needs_runtime_context@.len(),
    ensures
        r == forall|i: int|
            0 <= i < tool_names@.len() ==> !serial_tool_names().contains(
                (#[trigger] tool_names@[i])@,
            ) && !needs_runtime_context@[i],
{
    let mut i: usize = 0;
    while i < tool_names.len()
        invariant
            i <= tool_names@.len(),
            tool_names@.len() == needs_runtime_context@.len(),
            forall|j: int|
                0 <= j < i ==> !serial_tool_names().contains((#[trigger] tool_names@[j])@)
                    && !needs_runtime_context@[j],
        decreases tool_names@.len() - i,
    {
        if !can_run_in_parallel(tool_names[i].as_str()) || needs_runtime_context[i] {
            return false;
        }
        assert(!serial_tool_names().contains(tool_names@[i as int]@) && !needs_runtime_context@[i as int]);
        i = i + 1;
    }
    true
}

/// What happens to a tool call before anything runs.
#[derive(Debug, Clone, Copy, PartialEq, Eq, Structural)]
pub enum ToolCallGate {
    /// The turn was cancelled: recorded as `tool_call_cancelled`.
    Cancelled,
    /// The tool is not offered to the model: recorded as `tool_call_rejected`.
    Unavailable,
    /// One of the runtime's own tools: the runtime answers it.
    RunRuntimeTool,
    /// An ordinary tool: the tool executor runs it.
    RunTool,
}

/// How a tool call proceeds: refused in a cancelled turn, refused when the
/// tool is not offered, and otherwise run by the runtime or by the tool
/// executor.
pub fn tool_call_gate(aborted: bool, visible: bool, runtime_tool: bool) -> (r: ToolCallGate)
    ensures
        r == (if aborted {
            ToolCallGate::Cancelled
        } else if !visible {
            ToolCallGate::Unavailable
        } else if runtime_tool {
            ToolCallGate::RunRuntimeTool
        } else {
            ToolCallGate::RunTool
        }),
{
    if aborted {
        ToolCallGate::Cancelled
    } else if !visible {
        ToolCallGate::Unavailable
    } else if runtime_tool {
        ToolCallGate::RunRuntimeTool
    } else {
        ToolCallGate::RunTool
    }
}

/// A tool call refused before it ran: the tape event that records it, and
/// the error the call fails with. Calls that run are not refused.
pub fn refused_tool_call(gate: ToolCallGate, tool_name: &str) -> (r: Option<(String, RuntimeError)>)
    ensures
        match gate {
            ToolCallGate::Cancelled => r matches Some((event, error)) && event@
                == "tool_call_cancelled"@ && error@ == ("本轮已取消"@, true),
            ToolCallGate::Unavailable => r matches Some((event, error)) && event@
                == "tool_call_rejected"@ && error@ == ("工具不可用："@ + tool_name@, false),
            _ => r is None,
        },
{
    match gate {
        ToolCallGate::Cancelled => Some((owned("tool_call_cancelled"), RuntimeError::cancelled())),
        ToolCallGate::Unavailable => Some(
            (owned("tool_call_rejected"), RuntimeError::tool_unavailable(tool_name)),
        ),
        _ => None,
    }
}

/// Whether a result answers the call it came back for: same invocation id
/// and same tool.
pub fn tool_result_matches_call(
    call_invocation_id: &str,
    call_tool_name: &str,
    result_invocation_id: &str,
    result_tool_name: &str,
) -> (r: bool)
    ensures
        r == (call_invocation_id@ == result_invocation_id@ && call_tool_name@ == result_tool_name@),
{
    text_eq(call_invocation_id, result_invocation_id) && text_eq(call_tool_name, result_tool_name)
}

/// The signature by which repeated calls are recognized: the tool name, a
/// colon, and the arguments as rendered.
pub fn tool_call_signature(tool_name: &str, arguments: &str) -> (r: String)
    ensures
        r@ == tool_name@ + ":"@ + arguments@,
{
    let mut s = owned(tool_name);
    push_text(&mut s, ":");
    push_text(&mut s, arguments);
    s
}

/// Characters of a duplicate-call preview before it is cut.
pub const DUPLICATE_PREVIEW_CHARS: usize = 160;

/// `s` with every line feed replaced by a space.
pub open spec fn newlines_to_spaces(s: Seq<char>) -> Seq<char> {
    s.map_values(|c: char| if c == '\n' { ' ' } else { c })
}

/// The preview of a tool's output shown when a call is repeated: the first
/// 160 characters, an ellipsis when there were more, and line feeds turned
/// into spaces.
pub open spec fn duplicate_preview(content: Seq<char>) -> Seq<char> {
    newlines_to_spaces(
        if content.len() > 160 {
            content.take(160).push('…')
        } else {
            content
        },
    )
}

/// The preview of a tool's output shown when a call is repeated.
pub fn summarize_for_duplicate_message(content: &str) -> (r: String)
    ensures
        r@ == duplicate_preview(content@),
{
    let mut out = String::new();
    let mut count: usize = 0;
    let mut truncated = false;
    for c in it: content.chars()
        invariant
            it.seq() == content@,
            count <= 160,
            !truncated ==> count == it.index() && out@ == newlines_to_spaces(
                content@.take(count as int),
            ),
            truncated ==> it.index() > 160 && out@ == newlines_to_spaces(content@.take(160)),
    {
        if !truncated {
            if count < 160 {
                push_char(
                    &mut out,
                    if c == '\n' {
                        ' '
                    } else {
                        c
                    },
                );
                assert(content@.take(count + 1) =~= content@.take(count as int).push(c));
                assert(newlines_to_spaces(content@.take(count + 1)) =~= newlines_to_spaces(
                    content@.take(count as int),
                ).push(
                    if c == '\n' {
                        ' '
                    } else {
                        c
                    },
                ));
                count = count + 1;
            } else {
                truncated = true;
            }
        }
    }
    if truncated {
        push_char(&mut out, '…');
        assert(newlines_to_spaces(content@.take(160).push('…')) =~= newlines_to_spaces(
            content@.take(160),
        ).push('…'));
    } else {
        assert(content@.take(count as int) =~= content@);
    }
    out
}

/// The tape entries an invocation's record points to: the assistant
/// message that asked for it, when there is one, then the call, then the
/// result.
pub fn build_tool_source_entry_ids(
    assistant_entry_id: Option<u64>,
    tool_call_entry_id: u64,
    tool_result_entry_id: u64,
) -> (r: Vec<u64>)
    ensures
        r@ == (match assistant_entry_id {
            Some(a) => seq![a, tool_call_entry_id, tool_result_entry_id],
            None => seq![tool_call_entry_id, tool_result_entry_id],
        }),
{
    let mut ids: Vec<u64> = Vec::new();
    if let Some(assistant_entry_id) = assistant_entry_id {
        ids.push(assistant_entry_id);
    }
    ids.push(tool_call_entry_id);
    ids.push(tool_result_entry_id);
    proof {
        match assistant_entry_id {
            Some(a) => assert(ids@ =~= seq![a, tool_call_entry_id, tool_result_entry_id]),
            None => assert(ids@ =~= seq![tool_call_entry_id, tool_result_entry_id]),
        }
    }
    ids
}

/// The trace context of one model request.
#[derive(Debug, Clone)]
pub struct LlmTraceRequestContext {
    pub session_id: Option<String>,
    pub trace_id: String,
    pub span_id: String,
    pub parent_span_id: Option<String>,
    pub root_span_id: String,
    pub operation_name: String,
    pub turn_id: String,
    pub run_id: String,
    pub request_kind: String,
    pub step_index: u32,
}

/// The trace context of one tool call, under the request that asked for it.
#[derive(Debug, Clone)]
pub struct ToolTraceContext {
    pub session_id: Option<String>,
    pub trace_id: String,
    pub span_id: String,
    pub parent_span_id: String,
    pub root_span_id: String,
    pub operation_name: String,
    pub parent_request_kind: String,
    pub parent_step_index: u32,
}

/// The operation a request performs: compression requests summarize, the
/// others chat.
pub open spec fn request_operation(request_kind: Seq<char>) -> Seq<char> {
    if request_kind == "compression"@ {
        "summarize"@
    } else {
        "chat"@
    }
}

/// The trace context of request number `step_index`, of kind
/// `request_kind`, in run `run_id`.
pub fn build_llm_trace_context(
    session_id: Option<&str>,
    turn_id: &str,
    run_id: &str,
    request_kind: &str,
    step_index: u32,
) -> (r: LlmTraceRequestContext)
    ensures
        opt_text(r.session_id) == opt_str(session_id),
        r.trace_id@ == "aia-trace-"@ + run_id@,
        r.root_span_id@ == "aia-span-"@ + run_id@ + "-root"@,
        r.parent_span_id is Some && r.parent_span_id->0@ == r.root_span_id@,
        r.span_id@ == "aia-span-"@ + run_id@ + "-"@ + request_kind@ + "-"@ + crate::text::decimal(
            step_index as nat,
        ),
        r.operation_name@ == request_operation(request_kind@),
        r.turn_id@ == turn_id@,
        r.run_id@ == run_id@,
        r.request_kind@ == request_kind@,
        r.step_index == step_index,
{
    let trace_id = build_trace_id(run_id);
    let root_span_id = build_root_span_id(run_id);
    let span_id = build_request_span_id(run_id, request_kind, step_index);
    let operation_name = if text_eq(request_kind, "compression") {
        owned("summarize")
    } else {
        owned("chat")
    };
    let session_id = match session_id {
        Some(s) => Some(owned(s)),
        None => None,
    };
    proof {
        reveal_strlit("aia-trace");
        reveal_strlit("aia-trace-");
        reveal_strlit("aia-span");
        reveal_strlit("aia-span-");
        reveal_strlit("-root");
        reveal_strlit("root");
        reveal_strlit("-");
        assert(crate::config::TRACE_ID_PREFIX@ + seq!['-'] =~= "aia-trace-"@);
        assert(crate::config::SPAN_ID_PREFIX@ + seq!['-'] =~= "aia-span-"@);
        assert(seq!['-'] + "root"@ =~= "-root"@);
        assert(trace_id@ =~= "aia-trace-"@ + run_id@);
        assert(root_span_id@ =~= "aia-span-"@ + run_id@ + "-root"@);
        assert(span_id@ =~= "aia-span-"@ + run_id@ + "-"@ + request_kind@ + "-"@ + crate::text::decimal(
            step_index as nat,
        ));
    }
    LlmTraceRequestContext {
        session_id,
        trace_id,
        span_id,
        parent_span_id: Some(root_span_id.clone()),
        root_span_id,
        operation_name,
        turn_id: owned(turn_id),
        run_id: owned(run_id),
        request_kind: owned(request_kind),
        step_index,
    }
}

/// The trace context of tool invocation `invocation_id` asked for by the
/// request `parent`.
pub fn build_tool_trace_context(parent: &LlmTraceRequestContext, invocation_id: &str) -> (r:
    ToolTraceContext)
    ensures
        opt_text(r.session_id) == opt_text(parent.session_id),
        r.trace_id@ == parent.trace_id@,
        r.span_id@ == "aia-span-"@ + parent.run_id@ + "-tool-"@ + invocation_id@,
        r.parent_span_id@ == parent.span_id@,
        r.root_span_id@ == parent.root_span_id@,
        r.operation_name@ == "execute_tool"@,
        r.parent_request_kind@ == parent.request_kind@,
        r.parent_step_index == parent.step_index,
{
    let span_id = build_tool_span_id(parent.run_id.as_str(), invocation_id);
    proof {
        reveal_strlit("aia-span");
        reveal_strlit("aia-span-");
        reveal_strlit("tool");
        reveal_strlit("-tool-");
        assert(span_id@ =~= "aia-span-"@ + parent.run_id@ + "-tool-"@ + invocation_id@);
    }
    let session_id = match &parent.session_id {
        Some(s) => Some(owned(s.as_str())),
        None => None,
    };
    ToolTraceContext {
        session_id,
        trace_id: owned(parent.trace_id.as_str()),
        span_id,
        parent_span_id: owned(parent.span_id.as_str()),
        root_span_id: owned(parent.root_span_id.as_str()),
        operation_name: owned("execute_tool"),
        parent_request_kind: owned(parent.request_kind.as_str()),
        parent_step_index: parent.step_index,
    }
}

/// `name` is among `names`.
pub open spec fn listed(names: Seq<String>, name: Seq<char>) -> bool {
    exists|i: int| 0 <= i < names.len() && (#[trigger] names[i])@ == name
}

/// The tools of `names` that are not disabled, in their order.
pub open spec fn enabled_tools(names: Seq<String>, disabled: Seq<String>) -> Seq<String>
    decreases names.len(),
{
    if names.len() == 0 {
        Seq::empty()
    } else {
        let rest = enabled_tools(names.drop_last(), disabled);
        if listed(disabled, names.last()@) {
            rest
        } else {
            rest.push(names.last())
        }
    }
}

fn is_listed(names: &Vec<String>, name: &str) -> (r: bool)
    ensures
        r == listed(names@, name@),
{
    let mut i: usize = 0;
    while i < names.len()
        invariant
            i <= names@.len(),
            forall|j: int| 0 <= j < i ==> (#[trigger] names@[j])@ != name@,
        decreases names@.len() - i,
    {
        if text_eq(names[i].as_str(), name) {
            assert(names@[i as int]@ == name@);
            return true;
        }
        i = i + 1;
    }
    false
}

/// The tools the model sees: the executor's tools that are not disabled,
/// in their order, followed by the runtime's own tools.
pub fn visible_tool_names(
    tool_names: &Vec<String>,
    disabled: &Vec<String>,
    runtime_tool_names: &Vec<String>,
) -> (r: Vec<String>)
    ensures
        r@ == enabled_tools(tool_names@, disabled@) + runtime_tool_names@,
{
    let mut out: Vec<String> = Vec::new();
    let mut i: usize = 0;
    while i < tool_names.len()
        invariant
            i <= tool_names@.len(),
            out@ == enabled_tools(tool_names@.subrange(0, i as int), disabled@),
        decreases tool_names@.len() - i,
    {
        assert(tool_names@.subrange(0, i + 1).drop_last() =~= tool_names@.subrange(0, i as int));
        if !is_listed(disabled, tool_names[i].as_str()) {
            out.push(tool_names[i].clone());
        }
        i = i + 1;
    }
    assert(tool_names@.subrange(0, tool_names@.len() as int) =~= tool_names@);
    let ghost kept = out@;
    let mut j: usize = 0;
    while j < runtime_tool_names.len()
        invariant
            j <= runtime_tool_names@.len(),
            out@ == kept + runtime_tool_names@.subrange(0, j as int),
        decreases runtime_tool_names@.len() - j,
    {
        out.push(runtime_tool_names[j].clone());
        j = j + 1;
        assert(out@ =~= kept + runtime_tool_names@.subrange(0, j as int));
    }
    assert(runtime_tool_names@.subrange(0, runtime_tool_names@.len() as int) =~= runtime_tool_names@);
    out
}

/// The kind of a structured question asked of the user.
#[derive(Debug, Clone, Copy, PartialEq, Eq, Structural)]
pub enum QuestionKind {
    Choice,
    Text,
    Confirm,
}

/// The question kind a spelling names, after trimming and ASCII lower-casing.
pub open spec fn question_kind_named(name: Seq<char>) -> Option<QuestionKind> {
    if name == "choice"@ {
        Some(QuestionKind::Choice)
    } else if name == "text"@ {
        Some(QuestionKind::Text)
    } else if name == "confirm"@ {
        Some(QuestionKind::Confirm)
    } else {
        None
    }
}

/// Reads a question kind, in any ASCII letter case and with surrounding
/// white space; an unknown kind is refused with a message that names it.
pub fn parse_question_kind(raw: &str) -> (r: Result<QuestionKind, String>)
    ensures
        ({
            let normalized = ascii_lower(trimmed(raw@));
            match r {
                Ok(k) => question_kind_named(normalized) == Some(k),
                Err(message) => question_kind_named(normalized) is None && message@
                    == "invalid Question kind: "@ + normalized
                    + "; expected choice, text, or confirm"@,
            }
        }),
{
    let normalized = to_ascii_lowercase(trim(raw).as_str());
    if text_eq(normalized.as_str(), "choice") {
        Ok(QuestionKind::Choice)
    } else if text_eq(normalized.as_str(), "text") {
        Ok(QuestionKind::Text)
    } else if text_eq(normalized.as_str(), "confirm") {
        Ok(QuestionKind::Confirm)
    } else {
        let mut message = owned("invalid Question kind: ");
        push_text(&mut message, normalized.as_str());
        push_text(&mut message, "; expected choice, text, or confirm");
        Err(message)
    }
}

/// Whether a call asks the user structured questions.
pub fn is_question_tool_call(tool_name: &str) -> (r: bool)
    ensures
        r == (tool_name@ == "Question"@),
{
    text_eq(tool_name, "Question")
}

/// The tape event that records how a tool invocation ended: a success
/// (`succeeded`) is recorded as a result, or as a cancelled one when the
/// turn was cancelled meanwhile (`cancelled`); a failure takes the name it
/// was given, or else is a cancelled result or a failed call.
pub open spec fn tool_result_event_name(
    succeeded: bool,
    cancelled: bool,
    failure_event_name: Option<Seq<char>>,
) -> Seq<char> {
    if succeeded {
        if cancelled {
            "tool_result_cancelled"@
        } else {
            "tool_result_recorded"@
        }
    } else {
        match failure_event_name {
            Some(name) => name,
            None => if cancelled {
                "tool_result_cancelled"@
            } else {
                "tool_call_failed"@
            },
        }
    }
}

/// The event name of an ended tool invocation, and whether the stream
/// reports it as failed (a failure always is; a success only when the turn
/// was cancelled).
pub fn tool_result_event(succeeded: bool, cancelled: bool, failure_event_name: Option<&str>) -> (r: (
    String,
    bool,
))
    ensures
        r.0@ == tool_result_event_name(succeeded, cancelled, opt_str(failure_event_name)),
        r.1 == (!succeeded || cancelled),
{
    if succeeded {
        if cancelled {
            (owned("tool_result_cancelled"), true)
        } else {
            (owned("tool_result_recorded"), false)
        }
    } else {
        match failure_event_name {
            Some(name) => (owned(name), true),
            None => if cancelled {
                (owned("tool_result_cancelled"), true)
            } else {
                (owned("tool_call_failed"), true)
            },
        }
    }
}

/// The status a successful tool result is recorded with.
pub fn tool_result_status(cancelled: bool) -> (r: &'static str)
    ensures
        r@ == (if cancelled {
            "cancelled"@
        } else {
            "ok"@
        }),
{
    if cancelled {
        "cancelled"
    } else {
        "ok"
    }
}

/// The name of the anchor a handoff creates: the given one, or `handoff`.
pub fn handoff_anchor_name(name: Option<&str>) -> (r: String)
    ensures
        r@ == (match name {
            Some(n) => n@,
            None => "handoff"@,
        }),
{
    match name {
        Some(n) => owned(n),
        None => owned("handoff"),
    }
}

/// What the handoff tool answers once the anchor `name` is added.
pub fn handoff_result_message(name: &str) -> (r: String)
    ensures
        r@ == "anchor added: "@ + name@,
{
    let mut s = owned("anchor added: ");
    push_text(&mut s, name);
    s
}

/// What the tool executor answered for a call.
#[derive(Debug)]
pub enum ToolAnswer {
    /// A result, for the tool and invocation it names.
    Completed { tool_name: String, invocation_id: String },
    /// A request for input, for the tool, invocation and turn it names.
    Suspended { tool_name: String, invocation_id: String, turn_id: String },
    /// The tool failed, with this message.
    Failed(String),
}

/// How a tool call that ran is recorded.
#[derive(Debug)]
pub enum PreparedToolCall {
    /// Its result is kept; `failed` when the turn was cancelled meanwhile.
    Completed { failed: bool },
    /// It waits for the user.
    Suspended,
    /// It failed: recorded under `event_name` with `error`.
    Failed { event_name: String, error: RuntimeError },
}

/// How an answer is recorded: a result or request that names another call
/// (or, for a request, another turn) is refused; a failure is the tool's
/// error.
pub open spec fn prepared_answer_ok(
    call_tool_name: Seq<char>,
    call_invocation_id: Seq<char>,
    turn_id: Seq<char>,
    answer: ToolAnswer,
) -> bool {
    match answer {
        ToolAnswer::Completed { tool_name, invocation_id } => invocation_id@ == call_invocation_id
            && tool_name@ == call_tool_name,
        ToolAnswer::Suspended { tool_name, invocation_id, turn_id: request_turn } => invocation_id@
            == call_invocation_id && tool_name@ == call_tool_name && request_turn@ == turn_id,
        ToolAnswer::Failed(_) => false,
    }
}

/// Records the executor's answer to a call of `call_tool_name` with id
/// `call_invocation_id` in turn `turn_id`; `aborted` tells whether the turn
/// was cancelled meanwhile.
pub fn prepare_tool_answer(
    call_tool_name: &str,
    call_invocation_id: &str,
    turn_id: &str,
    aborted: bool,
    answer: &ToolAnswer,
) -> (r: PreparedToolCall)
    ensures
        prepared_answer_ok(call_tool_name@, call_invocation_id@, turn_id@, *answer) ==> match *answer {
            ToolAnswer::Completed { .. } => r == PreparedToolCall::Completed { failed: aborted },
            _ => r == PreparedToolCall::Suspended,
        },
        match *answer {
            ToolAnswer::Completed { tool_name, invocation_id } => !prepared_answer_ok(
                call_tool_name@,
                call_invocation_id@,
                turn_id@,
                *answer,
            ) ==> (r matches PreparedToolCall::Failed { event_name, error } && event_name@
                == "tool_result_rejected"@ && error@ == ("工具结果不匹配：调用 "@ + call_tool_name@ + "#"@
                + call_invocation_id@ + ", 结果 "@ + tool_name@ + "#"@ + invocation_id@, false)),
            ToolAnswer::Suspended { tool_name, invocation_id, .. } => !prepared_answer_ok(
                call_tool_name@,
                call_invocation_id@,
                turn_id@,
                *answer,
            ) ==> (r matches PreparedToolCall::Failed { event_name, error } && event_name@
                == "tool_request_rejected"@ && error@ == ("工具执行失败："@
                + "pending tool request mismatch: call "@ + call_tool_name@ + "#"@
                + call_invocation_id@ + ", request "@ + tool_name@ + "#"@ + invocation_id@, false)),
            ToolAnswer::Failed(message) => r matches PreparedToolCall::Failed { event_name, error }
                && event_name@ == "tool_call_failed"@ && error@ == ("工具执行失败："@ + message@, false),
        },
{
    match answer {
        ToolAnswer::Completed { tool_name, invocation_id } => {
            if tool_result_matches_call(call_invocation_id, call_tool_name, invocation_id.as_str(), tool_name.as_str()) {
                PreparedToolCall::Completed { failed: aborted }
            } else {
                PreparedToolCall::Failed {
                    event_name: owned("tool_result_rejected"),
                    error: RuntimeError::tool_result_mismatch(
                        call_tool_name,
                        call_invocation_id,
                        tool_name.as_str(),
                        invocation_id.as_str(),
                    ),
                }
            }
        },
        ToolAnswer::Suspended { tool_name, invocation_id, turn_id: request_turn } => {
            if text_eq(invocation_id.as_str(), call_invocation_id) && text_eq(tool_name.as_str(), call_tool_name)
                && text_eq(request_turn.as_str(), turn_id) {
                PreparedToolCall::Suspended
            } else {
                let mut detail = owned("pending tool request mismatch: call ");
                push_text(&mut detail, call_tool_name);
                push_text(&mut detail, "#");
                push_text(&mut detail, call_invocation_id);
                push_text(&mut detail, ", request ");
                push_text(&mut detail, tool_name.as_str());
                push_text(&mut detail, "#");
                push_text(&mut detail, invocation_id.as_str());
                let error = RuntimeError::tool(detail.as_str());
                assert(error@.0 =~= "工具执行失败："@ + "pending tool request mismatch: call "@ + call_tool_name@ + "#"@
                    + call_invocation_id@ + ", request "@ + tool_name@ + "#"@ + invocation_id@);
                PreparedToolCall::Failed { event_name: owned("tool_request_rejected"), error }
            }
        },
        ToolAnswer::Failed(message) => PreparedToolCall::Failed {
            event_name: owned("tool_call_failed"),
            error: RuntimeError::tool(message.as_str()),
        },
    }
}

} // verus!
