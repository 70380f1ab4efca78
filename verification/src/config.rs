//! Shared names, default paths and stable identifiers.
use vstd::prelude::*;

use crate::text::{decimal, owned, push_char, push_padded_decimal, push_text};

verus! {

pub const APP_NAME: &'static str = "aia";

pub const TRACE_ID_PREFIX: &'static str = "aia-trace";

pub const SPAN_ID_PREFIX: &'static str = "aia-span";

pub const PROMPT_CACHE_KEY_PREFIX: &'static str = "aia";

pub const TRACE_ATTR_FIRST_REASONING_DELTA_MS: &'static str = "aia.first_reasoning_delta_ms";

pub const TRACE_ATTR_FIRST_TEXT_DELTA_MS: &'static str = "aia.first_text_delta_ms";

pub const AIA_DIR_NAME: &'static str = ".aia";

pub const PROVIDERS_FILE_NAME: &'static str = "providers.json";

pub const SESSION_TAPE_FILE_NAME: &'static str = "session.jsonl";

pub const STORE_FILE_NAME: &'static str = "store.sqlite3";

pub const SESSIONS_DIR_NAME: &'static str = "sessions";

pub const DEFAULT_SESSION_TITLE: &'static str = "New session";

pub const DEFAULT_SERVER_BIND_ADDR: &'static str = "0.0.0.0:3434";

pub const DEFAULT_SERVER_BASE_URL: &'static str = "http://localhost:3434";

pub const DEFAULT_SERVER_EVENT_BUFFER: usize = 512;

pub const DEFAULT_SERVER_REQUEST_TIMEOUT_MS: u64 = 300_000;

/// The trace identifier of a run: `aia-trace-{run_id}`.
pub fn build_trace_id(run_id: &str) -> (r: String)
    ensures
        r@ == TRACE_ID_PREFIX@ + seq!['-'] + run_id@,
{
    let mut out = owned(TRACE_ID_PREFIX);
    push_char(&mut out, '-');
    push_text(&mut out, run_id);
    out
}

/// The root span identifier of a run: `aia-span-{run_id}-root`.
pub fn build_root_span_id(run_id: &str) -> (r: String)
    ensures
        r@ == SPAN_ID_PREFIX@ + seq!['-'] + run_id@ + seq!['-'] + "root"@,
{
    let mut out = owned(SPAN_ID_PREFIX);
    push_char(&mut out, '-');
    push_text(&mut out, run_id);
    push_char(&mut out, '-');
    push_text(&mut out, "root");
    out
}

/// The span identifier of one model request: `aia-span-{run_id}-{request_kind}-{step_index}`.
pub fn build_request_span_id(run_id: &str, request_kind: &str, step_index: u32) -> (r: String)
    ensures
        r@ == SPAN_ID_PREFIX@ + seq!['-'] + run_id@ + seq!['-'] + request_kind@ + seq!['-']
            + decimal(step_index as nat),
{
    let mut out = owned(SPAN_ID_PREFIX);
    push_char(&mut out, '-');
    push_text(&mut out, run_id);
    push_char(&mut out, '-');
    push_text(&mut out, request_kind);
    push_char(&mut out, '-');
    push_padded_decimal(&mut out, step_index as u64, 0);
    out
}

/// The span identifier of one tool invocation: `aia-span-{run_id}-tool-{invocation_id}`.
pub fn build_tool_span_id(run_id: &str, invocation_id: &str) -> (r: String)
    ensures
        r@ == SPAN_ID_PREFIX@ + seq!['-'] + run_id@ + seq!['-'] + "tool"@ + seq!['-']
            + invocation_id@,
{
    let mut out = owned(SPAN_ID_PREFIX);
    push_char(&mut out, '-');
    push_text(&mut out, run_id);
    push_char(&mut out, '-');
    push_text(&mut out, "tool");
    push_char(&mut out, '-');
    push_text(&mut out, invocation_id);
    out
}

/// The prompt cache key of a session: `aia:{provider}:{model}:session:{session}`.
pub fn build_prompt_cache_key(provider_name: &str, model_id: &str, session_id: &str) -> (r: String)
    ensures
        r@ == PROMPT_CACHE_KEY_PREFIX@ + seq![':'] + provider_name@ + seq![':'] + model_id@
            + seq![':'] + "session"@ + seq![':'] + session_id@,
{
    let mut out = owned(PROMPT_CACHE_KEY_PREFIX);
    push_char(&mut out, ':');
    push_text(&mut out, provider_name);
    push_char(&mut out, ':');
    push_text(&mut out, model_id);
    push_char(&mut out, ':');
    push_text(&mut out, "session");
    push_char(&mut out, ':');
    push_text(&mut out, session_id);
    out
}

/// The user agent `{app_name}-{os}-{arch}/{version}`.
pub fn format_user_agent(app_name: &str, os: &str, arch: &str, version: &str) -> (r: String)
    ensures
        r@ == app_name@ + seq!['-'] + os@ + seq!['-'] + arch@ + seq!['/'] + version@,
{
    let mut out = owned(app_name);
    push_char(&mut out, '-');
    push_text(&mut out, os);
    push_char(&mut out, '-');
    push_text(&mut out, arch);
    push_char(&mut out, '/');
    push_text(&mut out, version);
    out
}

} // verus!
