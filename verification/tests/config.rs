use std::path::{Path, PathBuf};

use aia::config::{
    build_prompt_cache_key, build_request_span_id, build_root_span_id, build_tool_span_id,
    build_trace_id, format_user_agent, AIA_DIR_NAME, APP_NAME, DEFAULT_SERVER_BASE_URL,
    DEFAULT_SERVER_BIND_ADDR, DEFAULT_SERVER_EVENT_BUFFER, DEFAULT_SERVER_REQUEST_TIMEOUT_MS,
    DEFAULT_SESSION_TITLE, PROMPT_CACHE_KEY_PREFIX, PROVIDERS_FILE_NAME, SESSIONS_DIR_NAME,
    SESSION_TAPE_FILE_NAME, SPAN_ID_PREFIX, STORE_FILE_NAME, TRACE_ATTR_FIRST_REASONING_DELTA_MS,
    TRACE_ATTR_FIRST_TEXT_DELTA_MS, TRACE_ID_PREFIX,
};
use aia::paths::{
    aia_dir_path, default_registry_path, default_session_tape_path, default_sessions_dir,
    default_store_path, sessions_dir_from_registry_path, store_path_from_registry_path,
};

#[test]
fn default_paths_are_under_hidden_workspace_dir() {
    assert_eq!(PathBuf::from(aia_dir_path()), PathBuf::from(AIA_DIR_NAME));
    assert_eq!(PathBuf::from(default_registry_path()), PathBuf::from(".aia/providers.json"));
    assert_eq!(PathBuf::from(default_session_tape_path()), PathBuf::from(".aia/session.jsonl"));
    assert_eq!(PathBuf::from(default_store_path()), PathBuf::from(".aia/store.sqlite3"));
    assert_eq!(PathBuf::from(default_sessions_dir()), PathBuf::from(".aia/sessions"));
    assert_eq!(APP_NAME, "aia");
    assert_eq!(DEFAULT_SESSION_TITLE, "New session");
    assert_eq!(DEFAULT_SERVER_BIND_ADDR, "0.0.0.0:3434");
    assert_eq!(DEFAULT_SERVER_BASE_URL, "http://localhost:3434");
    assert_eq!(DEFAULT_SERVER_EVENT_BUFFER, 512);
    assert_eq!(DEFAULT_SERVER_REQUEST_TIMEOUT_MS, 300_000);
    assert_eq!(PROVIDERS_FILE_NAME, "providers.json");
    assert_eq!(SESSION_TAPE_FILE_NAME, "session.jsonl");
    assert_eq!(STORE_FILE_NAME, "store.sqlite3");
    assert_eq!(SESSIONS_DIR_NAME, "sessions");
    assert_eq!(TRACE_ID_PREFIX, "aia-trace");
    assert_eq!(SPAN_ID_PREFIX, "aia-span");
    assert_eq!(PROMPT_CACHE_KEY_PREFIX, "aia");
    assert_eq!(TRACE_ATTR_FIRST_REASONING_DELTA_MS, "aia.first_reasoning_delta_ms");
    assert_eq!(TRACE_ATTR_FIRST_TEXT_DELTA_MS, "aia.first_text_delta_ms");
}

#[test]
fn derived_paths_follow_registry_parent() {
    let registry_path = Path::new("/tmp/aia/.aia/providers.json");
    let registry = registry_path.to_str().unwrap();
    assert_eq!(
        PathBuf::from(sessions_dir_from_registry_path(registry)),
        PathBuf::from("/tmp/aia/.aia/sessions")
    );
    assert_eq!(
        PathBuf::from(store_path_from_registry_path(registry)),
        PathBuf::from("/tmp/aia/.aia/store.sqlite3")
    );
}

#[test]
fn trace_and_prompt_helpers_build_stable_identifiers() {
    assert_eq!(build_trace_id("run-1"), "aia-trace-run-1");
    assert_eq!(build_root_span_id("run-1"), "aia-span-run-1-root");
    assert_eq!(build_request_span_id("run-1", "chat", 2), "aia-span-run-1-chat-2");
    assert_eq!(build_tool_span_id("run-1", "call_1"), "aia-span-run-1-tool-call_1");
    assert_eq!(
        build_prompt_cache_key("openai", "gpt-4.1-mini", "session-1"),
        "aia:openai:gpt-4.1-mini:session:session-1"
    );
}

#[test]
fn user_agent_joins_app_platform_and_version() {
    let user_agent = format_user_agent(APP_NAME, "linux", "x86_64", "0.1.0");
    assert_eq!(user_agent, "aia-linux-x86_64/0.1.0");
    assert!(user_agent.starts_with("aia-"));
    assert!(user_agent.ends_with("/0.1.0"));
}

#[test]
fn request_span_ids_render_large_step_indices_in_decimal() {
    assert_eq!(build_request_span_id("r", "completion", 0), "aia-span-r-completion-0");
    assert_eq!(build_request_span_id("r", "completion", 4294967295), "aia-span-r-completion-4294967295");
}

#[test]
fn registry_path_without_parent_directory_keeps_relative_names() {
    assert_eq!(sessions_dir_from_registry_path("providers.json"), "sessions");
    assert_eq!(store_path_from_registry_path("providers.json"), "store.sqlite3");
}

#[test]
fn sibling_paths_join_with_a_single_separator() {
    assert_eq!(sessions_dir_from_registry_path("/srv/aia/providers.json"), "/srv/aia/sessions");
    assert_eq!(store_path_from_registry_path("/providers.json"), "/store.sqlite3");
    assert_eq!(sessions_dir_from_registry_path("providers.json"), "sessions");
    assert_eq!(store_path_from_registry_path("conf/providers.json"), "conf/store.sqlite3");
}
