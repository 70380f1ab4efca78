# aia

The core rules of the `aia` agent harness, written in Verus and proved
against their contracts: workspace paths and identifiers, session records
and their automatic renaming, provider accounts, channel bindings, the
trace store's summaries and rollups, the dashboard's figures, and the
decisions the agent runtime takes while it runs a turn (tool-call gating,
context pressure and compression, stop-reason checks, event fan-out).

## Layout

- `src/` — the verified library. Each module states its model with spec
  functions and proves every executable function against it; the public
  `law_*` proof functions state properties that span several functions
  (round trips, idempotence, what a sequence of events can and cannot do).
- `tests/` — ordinary Rust tests of the library on concrete values.
- `app/` — the unverified shell around the library: the SQLite store
  (through `rusqlite`), serde copies of the library's records, session ids
  with random bits read from `/dev/urandom`, and the floating-point
  figures of the dashboard and trace summaries.

Calls into the standard library that Verus has no specification for
(appending a character, lower-casing, a path's parent, the clock and a
random source) go through a few small trusted wrappers in `src/text.rs`,
`src/paths.rs` and `src/clock.rs`; each states in its doc comment what it
assumes. Joining paths and trimming white space are verified.

## Scope

- The crate targets Unix: paths are joined with `/`, as `Path::join` does
  there, and the contract of `join_path` says so.
- The agent runtime itself (the loop that streams a completion, runs tools,
  writes the session tape and publishes events) is not part of this crate.
  It is built on the harness's own crates for the domain model, the session
  tape, the prompts and the provider registry, which are not available
  here. What that loop decides at each step is in the library as
  verified step functions (`turn_loop`, `tool_policy`, `context_window`,
  `question`, `event_log`), ready for a runtime to drive.
