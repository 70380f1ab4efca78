use vstd::prelude::*;

pub mod calendar;
pub mod channel;
pub mod clock;
pub mod config;
pub mod context_window;
pub mod dashboard;
pub mod error;
pub mod event_log;
pub mod legacy_session;
pub mod paths;
pub mod provider;
pub mod question;
pub mod rollup_plan;
pub mod runtime_error;
pub mod schema;
pub mod session;
pub mod text;
pub mod timestamp;
pub mod tool_policy;
pub mod trace;
pub mod trace_loop;
pub mod trace_rollup;
pub mod turn_loop;

verus! {
} // verus!
