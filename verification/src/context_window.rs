//! How the runtime reads its tape to build the next request: which entries
//! form the conversation, when the context is under pressure, and how much
//! output the next request may ask for.
use vstd::prelude::*;

use crate::text::{
    contains_text, lowercase, opt_str, opt_text, text_contains, text_eq, to_lowercase,
};

verus! {

broadcast use vstd::seq_lib::lemma_seq_contains_after_push;

/// The model's reply says its context window was exceeded; `lowered` is the
/// reply in lower case.
pub open spec fn mentions_context_length(lowered: Seq<char>) -> bool {
    ||| contains_text(lowered, "context_length_exceeded"@)
    ||| contains_text(lowered, "maximum context length"@)
    ||| contains_text(lowered, "longer than the model's context length"@)
    ||| contains_text(lowered, "longer than the models context length"@)
    ||| contains_text(lowered, "too many tokens"@)
    ||| contains_text(lowered, "context window"@)
}

/// Whether a lower-case error message says the context window was exceeded.
pub fn matches_context_length_error(lowered: &str) -> (r: bool)
    ensures
        r == mentions_context_length(lowered@),
{
    text_contains(lowered, "context_length_exceeded") || text_contains(
        lowered,
        "maximum context length",
    ) || text_contains(lowered, "longer than the model's context length") || text_contains(
        lowered,
        "longer than the models context length",
    ) || text_contains(lowered, "too many tokens") || text_contains(lowered, "context window")
}

/// Whether an error message says the context window was exceeded, in any
/// letter case.
pub fn is_context_length_error(message: &str) -> (r: bool)
    ensures
        r == mentions_context_length(lowercase(message@)),
{
    let lowered = to_lowercase(message);
    matches_context_length_error(lowered.as_str())
}

/// Tokens kept free between the last input and the context limit.
pub const CONTEXT_HEADROOM_SAFETY_TOKENS: u32 = 32;

/// `a - b`, or 0 when `b` is larger.
pub open spec fn sat_sub(a: int, b: int) -> int {
    if a >= b {
        a - b
    } else {
        0
    }
}

/// The output budget of the next request: the configured output limit,
/// narrowed to what the context window has left after the last input and
/// a safety margin, and at least 1; the configured limit alone when the
/// context limit or the last input is unknown.
pub open spec fn output_budget(
    configured_output: Option<u32>,
    context_limit: Option<u32>,
    current_input_tokens: Option<u32>,
) -> Option<u32> {
    match (context_limit, current_input_tokens) {
        (Some(limit), Some(input)) => {
            let used = if input + CONTEXT_HEADROOM_SAFETY_TOKENS > u32::MAX {
                u32::MAX as int
            } else {
                input + CONTEXT_HEADROOM_SAFETY_TOKENS
            };
            let headroom = sat_sub(limit as int, used);
            let effective = match configured_output {
                Some(output) => if output <= headroom {
                    output as int
                } else {
                    headroom
                },
                None => headroom,
            };
            Some(if effective >= 1 { effective as u32 } else { 1u32 })
        },
        _ => configured_output,
    }
}

/// The output budget of the next request.
pub fn effective_max_output_tokens(
    configured_output: Option<u32>,
    context_limit: Option<u32>,
    current_input_tokens: Option<u32>,
) -> (r: Option<u32>)
    ensures
        r == output_budget(configured_output, context_limit, current_input_tokens),
{
    let context_limit = match context_limit {
        Some(limit) => limit,
        None => return configured_output,
    };
    let last_input_tokens = match current_input_tokens {
        Some(tokens) => tokens,
        None => return configured_output,
    };
    let usable_headroom = context_limit.saturating_sub(
        last_input_tokens.saturating_add(CONTEXT_HEADROOM_SAFETY_TOKENS),
    );
    let effective = match configured_output {
        Some(output) => if output <= usable_headroom {
            output
        } else {
            usable_headroom
        },
        None => usable_headroom,
    };
    Some(
        if effective >= 1 {
            effective
        } else {
            1
        },
    )
}

/// Law: the output budget never asks for more than the configured limit
/// (when there is one), and, whenever the context limit and the last input
/// are known and leave room, never runs past the context window.
pub proof fn law_output_budget_within_limits(
    configured_output: Option<u32>,
    context_limit: u32,
    input: u32,
)
    ensures
        output_budget(configured_output, Some(context_limit), Some(input)) is Some,
        configured_output is Some ==> output_budget(configured_output, Some(context_limit), Some(input))->0
            <= if configured_output->0 >= 1 { configured_output->0 } else { 1 },
        input + CONTEXT_HEADROOM_SAFETY_TOKENS < context_limit ==> input
            + CONTEXT_HEADROOM_SAFETY_TOKENS + output_budget(
            configured_output,
            Some(context_limit),
            Some(input),
        )->0 <= context_limit,
        output_budget(configured_output, Some(context_limit), Some(input))->0 >= 1,
{
}

/// The input tokens of the last request, as seen from now: unknown once an
/// anchor has shrunk the context after the last completed turn, and capped
/// at `u32::MAX`.
pub fn current_input_tokens(
    has_anchor_after_last_completed_turn: bool,
    last_input_tokens: Option<u64>,
) -> (r: Option<u32>)
    ensures
        r == (if has_anchor_after_last_completed_turn {
            None
        } else {
            match last_input_tokens {
                Some(t) => Some(if t > u32::MAX { u32::MAX } else { t as u32 }),
                None => None,
            }
        }),
{
    if has_anchor_after_last_completed_turn {
        return None;
    }
    match last_input_tokens {
        Some(t) => Some(
            if t > 0xffff_ffffu64 {
                0xffff_ffffu32
            } else {
                t as u32
            },
        ),
        None => None,
    }
}

/// What a tape entry is, as far as building requests needs to know.
#[derive(Debug, Clone, Copy, PartialEq, Eq, Structural)]
pub enum TapeEntryKind {
    Message,
    ToolCall,
    ToolResult,
    /// The event that closes a completed turn.
    TurnCompleted,
    Anchor,
    Other,
}

/// A tape entry: its id, the turn that wrote it, and its kind.
#[derive(Debug)]
pub struct TapeEntryInfo {
    pub id: u64,
    pub run_id: Option<String>,
    pub kind: TapeEntryKind,
}

/// Messages, tool calls and tool results are what a conversation holds.
pub open spec fn is_conversation_kind(k: TapeEntryKind) -> bool {
    k == TapeEntryKind::Message || k == TapeEntryKind::ToolCall || k == TapeEntryKind::ToolResult
}

/// The entry was written by turn `turn_id`.
pub open spec fn written_by(e: TapeEntryInfo, turn_id: Seq<char>) -> bool {
    opt_text(e.run_id) == Some(turn_id)
}

fn is_written_by(e: &TapeEntryInfo, turn_id: &str) -> (r: bool)
    ensures
        r == written_by(*e, turn_id@),
{
    match &e.run_id {
        Some(run_id) => text_eq(run_id.as_str(), turn_id),
        None => false,
    }
}

fn is_conversation_entry(k: TapeEntryKind) -> (r: bool)
    ensures
        r == is_conversation_kind(k),
{
    match k {
        TapeEntryKind::Message | TapeEntryKind::ToolCall | TapeEntryKind::ToolResult => true,
        _ => false,
    }
}

/// `r` lists, in increasing order, exactly the indices below `n` that satisfy `keep`.
pub open spec fn lists_exactly(r: Seq<usize>, n: int, keep: spec_fn(int) -> bool) -> bool {
    &&& forall|a: int, b: int| 0 <= a < b < r.len() ==> r[a] < r[b]
    &&& forall|a: int| 0 <= a < r.len() ==> r[a] < n && keep(r[a] as int)
    &&& forall|i: int| 0 <= i < n && #[trigger] keep(i) ==> r.contains(i as usize)
}

/// The index of the last entry that closes a completed turn.
pub fn latest_completed_turn_index(entries: &Vec<TapeEntryInfo>) -> (r: Option<usize>)
    ensures
        match r {
            Some(i) => i < entries@.len() && entries@[i as int].kind == TapeEntryKind::TurnCompleted
                && forall|j: int|
                i < j < entries@.len() ==> (#[trigger] entries@[j]).kind
                    != TapeEntryKind::TurnCompleted,
            None => forall|j: int|
                0 <= j < entries@.len() ==> (#[trigger] entries@[j]).kind
                    != TapeEntryKind::TurnCompleted,
        },
{
    let mut i: usize = entries.len();
    while i > 0
        invariant
            i <= entries@.len(),
            forall|j: int|
                i <= j < entries@.len() ==> (#[trigger] entries@[j]).kind
                    != TapeEntryKind::TurnCompleted,
        decreases i,
    {
        i = i - 1;
        if entries[i].kind == TapeEntryKind::TurnCompleted {
            return Some(i);
        }
    }
    None
}

/// Entry `i` closes the last completed turn of the tape.
pub open spec fn is_last_completed(entries: Seq<TapeEntryInfo>, i: int) -> bool {
    &&& 0 <= i < entries.len()
    &&& entries[i].kind == TapeEntryKind::TurnCompleted
    &&& forall|k: int| i < k < entries.len() ==> (#[trigger] entries[k]).kind != TapeEntryKind::TurnCompleted
}

/// Whether an anchor follows the last completed turn (false when no turn
/// has completed).
pub fn has_anchor_after_last_completed_turn(entries: &Vec<TapeEntryInfo>) -> (r: bool)
    ensures
        r == exists|i: int, j: int|
            #![trigger is_last_completed(entries@, i), entries@[j]]
            is_last_completed(entries@, i) && i < j < entries@.len() && entries@[j].kind
                == TapeEntryKind::Anchor,
{
    let last = match latest_completed_turn_index(entries) {
        Some(i) => i,
        None => return false,
    };
    assert(is_last_completed(entries@, last as int));
    let n = entries.len();
    assert(last < n);
    let mut j: usize = last + 1;
    while j < entries.len()
        invariant
            last < j <= entries@.len(),
            is_last_completed(entries@, last as int),
            forall|k: int| last < k < j ==> (#[trigger] entries@[k]).kind != TapeEntryKind::Anchor,
        decreases entries@.len() - j,
    {
        if entries[j].kind == TapeEntryKind::Anchor {
            assert(entries@[j as int].kind == TapeEntryKind::Anchor);
            return true;
        }
        j = j + 1;
    }
    assert forall|i: int, k: int|
        is_last_completed(entries@, i) && i < k < entries@.len() implies entries@[k].kind
        != TapeEntryKind::Anchor by {
        if i < last {
            assert(entries@[last as int].kind == TapeEntryKind::TurnCompleted);
        } else if i > last {
            assert(entries@[i].kind == TapeEntryKind::TurnCompleted);
        }
    }
    false
}

/// An entry written by `turn_id` after entry `lower_bound` whose kind
/// satisfies `kind_ok`.
pub open spec fn turn_entry_since(
    e: TapeEntryInfo,
    turn_id: Seq<char>,
    lower_bound: u64,
    tool_results_only: bool,
) -> bool {
    &&& e.id > lower_bound
    &&& written_by(e, turn_id)
    &&& if tool_results_only {
        e.kind == TapeEntryKind::ToolResult
    } else {
        is_conversation_kind(e.kind)
    }
}

/// Whether the last usage sample was taken in turn `turn_id` and that turn
/// has since written a conversation entry (or, with `tool_results_only`, a
/// tool result).
pub open spec fn turn_grew_since_usage(
    entries: Seq<TapeEntryInfo>,
    last_usage_turn_id: Option<Seq<char>>,
    last_usage_entry_id: Option<u64>,
    turn_id: Seq<char>,
    tool_results_only: bool,
) -> bool {
    let lower_bound = match last_usage_entry_id {
        Some(id) => id,
        None => 0,
    };
    last_usage_turn_id == Some(turn_id) && exists|i: int|
        0 <= i < entries.len() && turn_entry_since(
            #[trigger] entries[i],
            turn_id,
            lower_bound,
            tool_results_only,
        )
}

fn turn_grew(
    entries: &Vec<TapeEntryInfo>,
    last_usage_turn_id: Option<&str>,
    last_usage_entry_id: Option<u64>,
    turn_id: &str,
    tool_results_only: bool,
) -> (r: bool)
    ensures
        r == turn_grew_since_usage(
            entries@,
            opt_str(last_usage_turn_id),
            last_usage_entry_id,
            turn_id@,
            tool_results_only,
        ),
{
    let same_turn = match last_usage_turn_id {
        Some(t) => text_eq(t, turn_id),
        None => false,
    };
    if !same_turn {
        return false;
    }
    let lower_bound: u64 = match last_usage_entry_id {
        Some(id) => id,
        None => 0,
    };
    let mut i: usize = 0;
    while i < entries.len()
        invariant
            i <= entries@.len(),
            opt_str(last_usage_turn_id) == Some(turn_id@),
            lower_bound == (match last_usage_entry_id {
                Some(id) => id,
                None => 0,
            }),
            forall|j: int|
                0 <= j < i ==> !turn_entry_since(
                    #[trigger] entries@[j],
                    turn_id@,
                    lower_bound,
                    tool_results_only,
                ),
        decreases entries@.len() - i,
    {
        let e = &entries[i];
        let kind_ok = if tool_results_only {
            e.kind == TapeEntryKind::ToolResult
        } else {
            is_conversation_entry(e.kind)
        };
        if e.id > lower_bound && is_written_by(e, turn_id) && kind_ok {
            assert(turn_entry_since(entries@[i as int], turn_id@, lower_bound, tool_results_only));
            assert(opt_str(last_usage_turn_id) == Some(turn_id@));
            assert(turn_grew_since_usage(
                entries@,
                opt_str(last_usage_turn_id),
                last_usage_entry_id,
                turn_id@,
                tool_results_only,
            ));
            return true;
        }
        i = i + 1;
    }
    false
}

/// Whether turn `turn_id`, which took the last usage sample, has written a
/// message, tool call or tool result since.
pub fn has_new_context_since_last_usage_sample(
    entries: &Vec<TapeEntryInfo>,
    last_usage_turn_id: Option<&str>,
    last_usage_entry_id: Option<u64>,
    turn_id: &str,
) -> (r: bool)
    ensures
        r == turn_grew_since_usage(
            entries@,
            opt_str(last_usage_turn_id),
            last_usage_entry_id,
            turn_id@,
            false,
        ),
{
    turn_grew(entries, last_usage_turn_id, last_usage_entry_id, turn_id, false)
}

/// Whether turn `turn_id`, which took the last usage sample, has written a
/// tool result since.
pub fn current_turn_has_tool_result_since_usage(
    entries: &Vec<TapeEntryInfo>,
    last_usage_turn_id: Option<&str>,
    last_usage_entry_id: Option<u64>,
    turn_id: &str,
) -> (r: bool)
    ensures
        r == turn_grew_since_usage(
            entries@,
            opt_str(last_usage_turn_id),
            last_usage_entry_id,
            turn_id@,
            true,
        ),
{
    turn_grew(entries, last_usage_turn_id, last_usage_entry_id, turn_id, true)
}

/// Law: a tool result written by the turn since the last usage sample is
/// new context for that turn.
pub proof fn law_tool_result_is_new_context(
    entries: Seq<TapeEntryInfo>,
    last_usage_turn_id: Option<Seq<char>>,
    last_usage_entry_id: Option<u64>,
    turn_id: Seq<char>,
)
    ensures
        turn_grew_since_usage(entries, last_usage_turn_id, last_usage_entry_id, turn_id, true)
            ==> turn_grew_since_usage(
            entries,
            last_usage_turn_id,
            last_usage_entry_id,
            turn_id,
            false,
        ),
{
    let lower_bound = match last_usage_entry_id {
        Some(id) => id,
        None => 0,
    };
    if turn_grew_since_usage(entries, last_usage_turn_id, last_usage_entry_id, turn_id, true) {
        let i = choose|i: int|
            0 <= i < entries.len() && turn_entry_since(
                #[trigger] entries[i],
                turn_id,
                lower_bound,
                true,
            );
        assert(turn_entry_since(entries[i], turn_id, lower_bound, false));
    }
}

/// Whether the runtime compresses the context before asking the model in
/// turn `turn_id`: the turn wrote a tool result since the last usage
/// sample, or the context is under pressure and the turn wrote new context
/// since that sample. `pressure_reached` says that the context limit and
/// the current input are known and that their ratio reached the configured
/// threshold; the ratio is a floating-point quotient and is computed by the
/// caller.
pub fn should_preflight_compress(
    entries: &Vec<TapeEntryInfo>,
    last_usage_turn_id: Option<&str>,
    last_usage_entry_id: Option<u64>,
    turn_id: &str,
    pressure_reached: bool,
) -> (r: bool)
    ensures
        r == (turn_grew_since_usage(
            entries@,
            opt_str(last_usage_turn_id),
            last_usage_entry_id,
            turn_id@,
            true,
        ) || (pressure_reached && turn_grew_since_usage(
            entries@,
            opt_str(last_usage_turn_id),
            last_usage_entry_id,
            turn_id@,
            false,
        ))),
{
    if current_turn_has_tool_result_since_usage(
        entries,
        last_usage_turn_id,
        last_usage_entry_id,
        turn_id,
    ) {
        return true;
    }
    if !pressure_reached {
        return false;
    }
    has_new_context_since_last_usage_sample(entries, last_usage_turn_id, last_usage_entry_id, turn_id)
}


/// Law: only messages, tool calls and tool results are ever summarized or
/// counted as conversation. Whatever the ids and turns, no index that the
/// compression's selections list points at a turn-completed event, an
/// anchor or any other event, and such an entry never counts as new
/// context of a turn.
pub proof fn law_events_are_never_conversation(
    entries: Seq<TapeEntryInfo>,
    turn_id: Seq<char>,
    bound: u64,
    tool_results_only: bool,
    pending: Seq<usize>,
    fallback: Seq<usize>,
)
    requires
        lists_exactly(
            pending,
            entries.len() as int,
            |i: int|
                entries[i].id < bound && written_by(entries[i], turn_id) && is_conversation_kind(
                    entries[i].kind,
                ),
        ),
        lists_exactly(
            fallback,
            entries.len() as int,
            |i: int|
                entries[i].id <= bound && (!written_by(entries[i], turn_id) || entries[i].kind
                    == TapeEntryKind::Message) && is_conversation_kind(entries[i].kind),
        ),
    ensures
        forall|a: int|
            0 <= a < pending.len() ==> {
                let k = #[trigger] entries[pending[a] as int].kind;
                k != TapeEntryKind::TurnCompleted && k != TapeEntryKind::Anchor && k
                    != TapeEntryKind::Other
            },
        forall|a: int|
            0 <= a < fallback.len() ==> {
                let k = #[trigger] entries[fallback[a] as int].kind;
                k != TapeEntryKind::TurnCompleted && k != TapeEntryKind::Anchor && k
                    != TapeEntryKind::Other
            },
        forall|e: TapeEntryInfo|
            (e.kind == TapeEntryKind::TurnCompleted || e.kind == TapeEntryKind::Anchor || e.kind
                == TapeEntryKind::Other) ==> !#[trigger] turn_entry_since(
                e,
                turn_id,
                bound,
                tool_results_only,
            ),
{
}

/// The conversation entries of turn `turn_id` written before the anchor
/// `anchor_entry_id`, by index in the tape.
pub fn pending_turn_conversation_before_anchor(
    entries: &Vec<TapeEntryInfo>,
    turn_id: &str,
    anchor_entry_id: u64,
) -> (r: Vec<usize>)
    ensures
        lists_exactly(
            r@,
            entries@.len() as int,
            |i: int|
                entries@[i].id < anchor_entry_id && written_by(entries@[i], turn_id@)
                    && is_conversation_kind(entries@[i].kind),
        ),
        forall|a: int|
            0 <= a < r@.len() ==> {
                let k = #[trigger] entries@[r@[a] as int].kind;
                k == TapeEntryKind::Message || k == TapeEntryKind::ToolCall || k
                    == TapeEntryKind::ToolResult
            },
{
    let ghost keep = |i: int|
        entries@[i].id < anchor_entry_id && written_by(entries@[i], turn_id@) && is_conversation_kind(
            entries@[i].kind,
        );
    let mut out: Vec<usize> = Vec::new();
    let mut i: usize = 0;
    while i < entries.len()
        invariant
            i <= entries@.len(),
            keep == (|i: int|
                entries@[i].id < anchor_entry_id && written_by(entries@[i], turn_id@)
                    && is_conversation_kind(entries@[i].kind)),
            forall|a: int, b: int| 0 <= a < b < out@.len() ==> out@[a] < out@[b],
            forall|a: int| 0 <= a < out@.len() ==> out@[a] < i && keep(out@[a] as int),
            forall|j: int| 0 <= j < i && #[trigger] keep(j) ==> out@.contains(j as usize),
        decreases entries@.len() - i,
    {
        let e = &entries[i];
        if e.id < anchor_entry_id && is_written_by(e, turn_id) && is_conversation_entry(e.kind) {
            out.push(i);
            assert(out@[out@.len() - 1] == i);
        }
        i = i + 1;
    }
    out
}

/// The entries a fallback compression summarizes: those up to the last
/// usage sample, keeping of the current turn only its messages, and only
/// conversation entries; nothing without a turn or a usage sample. The
/// second result is the entry the compression reaches.
pub fn fallback_compression_entries(
    entries: &Vec<TapeEntryInfo>,
    turn_id: Option<&str>,
    last_usage_entry_id: Option<u64>,
) -> (r: (Vec<usize>, u64))
    ensures
        turn_id is None || last_usage_entry_id is None ==> r.0@.len() == 0 && r.1 == 0,
        turn_id is Some && last_usage_entry_id is Some ==> r.1 == last_usage_entry_id->0
            && lists_exactly(
            r.0@,
            entries@.len() as int,
            |i: int|
                entries@[i].id <= last_usage_entry_id->0 && (!written_by(
                    entries@[i],
                    turn_id->0@,
                ) || entries@[i].kind == TapeEntryKind::Message) && is_conversation_kind(
                    entries@[i].kind,
                ),
        ),
        forall|a: int|
            0 <= a < r.0@.len() ==> {
                let k = #[trigger] entries@[r.0@[a] as int].kind;
                k == TapeEntryKind::Message || k == TapeEntryKind::ToolCall || k
                    == TapeEntryKind::ToolResult
            },
{
    let turn_id = match turn_id {
        Some(t) => t,
        None => return (Vec::new(), 0),
    };
    let last_usage_entry_id = match last_usage_entry_id {
        Some(id) => id,
        None => return (Vec::new(), 0),
    };
    let ghost keep = |i: int|
        entries@[i].id <= last_usage_entry_id && (!written_by(entries@[i], turn_id@)
            || entries@[i].kind == TapeEntryKind::Message) && is_conversation_kind(entries@[i].kind);
    let mut out: Vec<usize> = Vec::new();
    let mut i: usize = 0;
    while i < entries.len()
        invariant
            i <= entries@.len(),
            keep == (|i: int|
                entries@[i].id <= last_usage_entry_id && (!written_by(entries@[i], turn_id@)
                    || entries@[i].kind == TapeEntryKind::Message) && is_conversation_kind(
                    entries@[i].kind,
                )),
            forall|a: int, b: int| 0 <= a < b < out@.len() ==> out@[a] < out@[b],
            forall|a: int| 0 <= a < out@.len() ==> out@[a] < i && keep(out@[a] as int),
            forall|j: int| 0 <= j < i && #[trigger] keep(j) ==> out@.contains(j as usize),
        decreases entries@.len() - i,
    {
        let e = &entries[i];
        if e.id <= last_usage_entry_id && (!is_written_by(e, turn_id) || e.kind
            == TapeEntryKind::Message) && is_conversation_entry(e.kind) {
            out.push(i);
            assert(out@[out@.len() - 1] == i);
        }
        i = i + 1;
    }
    (out, last_usage_entry_id)
}

/// A conversation item as far as pairing calls with results needs to know.
#[derive(Debug)]
pub enum ConversationItemRef {
    Message,
    /// A tool call, by invocation id.
    ToolCall(String),
    /// A tool result, by the invocation id it answers.
    ToolResult(String),
}

/// The item calls the tool invocation `id`.
pub open spec fn calls(item: ConversationItemRef, id: Seq<char>) -> bool {
    match item {
        ConversationItemRef::ToolCall(c) => c@ == id,
        _ => false,
    }
}

/// A tool result whose call is not in `items`.
pub open spec fn is_orphaned(items: Seq<ConversationItemRef>, item: ConversationItemRef) -> bool {
    match item {
        ConversationItemRef::ToolResult(id) => !exists|j: int|
            0 <= j < items.len() && calls(#[trigger] items[j], id@),
        _ => false,
    }
}

fn has_call(items: &Vec<ConversationItemRef>, id: &str) -> (r: bool)
    ensures
        r == exists|j: int| 0 <= j < items@.len() && calls(#[trigger] items@[j], id@),
{
    let mut j: usize = 0;
    while j < items.len()
        invariant
            j <= items@.len(),
            forall|k: int| 0 <= k < j ==> !calls(#[trigger] items@[k], id@),
        decreases items@.len() - j,
    {
        match &items[j] {
            ConversationItemRef::ToolCall(c) => {
                if text_eq(c.as_str(), id) {
                    assert(calls(items@[j as int], id@));
                    return true;
                }
            },
            _ => {},
        }
        j = j + 1;
    }
    false
}

/// The items to send, by index: every item but the tool results whose call
/// was cut off by an anchor.
pub fn drop_orphaned_tool_results(items: &Vec<ConversationItemRef>) -> (r: Vec<usize>)
    ensures
        lists_exactly(r@, items@.len() as int, |i: int| !is_orphaned(items@, items@[i])),
{
    let ghost keep = |i: int| !is_orphaned(items@, items@[i]);
    let mut out: Vec<usize> = Vec::new();
    let mut i: usize = 0;
    while i < items.len()
        invariant
            i <= items@.len(),
            keep == (|i: int| !is_orphaned(items@, items@[i])),
            forall|a: int, b: int| 0 <= a < b < out@.len() ==> out@[a] < out@[b],
            forall|a: int| 0 <= a < out@.len() ==> out@[a] < i && keep(out@[a] as int),
            forall|j: int| 0 <= j < i && #[trigger] keep(j) ==> out@.contains(j as usize),
        decreases items@.len() - i,
    {
        let kept = match &items[i] {
            ConversationItemRef::ToolResult(id) => has_call(items, id.as_str()),
            _ => true,
        };
        if kept {
            out.push(i);
            assert(out@[out@.len() - 1] == i);
        }
        i = i + 1;
    }
    out
}

/// Item `kept[a]` is no tool result, or is one whose call is among the kept items.
pub open spec fn answered_within(items: Seq<ConversationItemRef>, kept: Seq<usize>, a: int) -> bool {
    match items[kept[a] as int] {
        ConversationItemRef::ToolResult(id) => exists|b: int|
            0 <= b < kept.len() && calls(#[trigger] items[kept[b] as int], id@),
        _ => true,
    }
}

/// Law: what is left once orphaned tool results are dropped has no orphan
/// of its own: every tool result left answers a tool call that is left too,
/// and no message or tool call is dropped.
pub proof fn law_no_orphans_after_filtering(items: Seq<ConversationItemRef>, kept: Seq<usize>)
    requires
        items.len() <= usize::MAX,
        lists_exactly(kept, items.len() as int, |i: int| !is_orphaned(items, items[i])),
    ensures
        forall|a: int| 0 <= a < kept.len() ==> #[trigger] answered_within(items, kept, a),
        forall|i: int|
            0 <= i < items.len() && !(#[trigger] items[i] is ToolResult) ==> kept.contains(i as usize),
{
    let keep = |i: int| !is_orphaned(items, items[i]);
    assert forall|i: int| 0 <= i < items.len() && !(#[trigger] items[i] is ToolResult) implies kept.contains(
        i as usize,
    ) by {
        assert(keep(i));
    }
    assert forall|a: int| 0 <= a < kept.len() implies #[trigger] answered_within(items, kept, a) by {
        let k = kept[a] as int;
        assert(keep(k));
        match items[k] {
            ConversationItemRef::ToolResult(id) => {
                let j = choose|j: int| 0 <= j < items.len() && calls(#[trigger] items[j], id@);
                assert(!(items[j] is ToolResult));
                assert(keep(j));
                assert(kept.contains(j as usize));
                let b = choose|b: int| 0 <= b < kept.len() && kept[b] == j as usize;
                assert(calls(items[kept[b] as int], id@));
            },
            _ => {},
        }
    }
}

/// The index of the last item that is neither a tool call nor a tool
/// result: a compression within a turn stops there.
pub fn compression_cutoff(items: &Vec<ConversationItemRef>) -> (r: Option<usize>)
    ensures
        match r {
            Some(i) => i < items@.len() && items@[i as int] is Message && forall|j: int|
                i < j < items@.len() ==> !(#[trigger] items@[j] is Message),
            None => forall|j: int| 0 <= j < items@.len() ==> !(#[trigger] items@[j] is Message),
        },
{
    let mut i: usize = items.len();
    while i > 0
        invariant
            i <= items@.len(),
            forall|j: int| i <= j < items@.len() ==> !(#[trigger] items@[j] is Message),
        decreases i,
    {
        i = i - 1;
        match &items[i] {
            ConversationItemRef::Message => return Some(i),
            _ => {},
        }
    }
    None
}

/// A conversation shorter than this is not worth compressing.
pub const MIN_ENTRIES_FOR_COMPRESSION: usize = 4;

/// Whether a conversation of `len` items is long enough to compress.
pub fn worth_compressing(len: usize) -> (r: bool)
    ensures
        r == (len >= MIN_ENTRIES_FOR_COMPRESSION),
{
    len >= MIN_ENTRIES_FOR_COMPRESSION
}

} // verus!
