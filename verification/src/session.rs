//! Session records and the rules that name sessions automatically.
use vstd::prelude::*;

use crate::clock::unix_subsec_nanos;
use crate::config::DEFAULT_SESSION_TITLE;
use crate::error::AiaStoreError;
use crate::text::{owned, push_text, text_eq, trim, trimmed};
use crate::timestamp::{iso8601_now, iso8601_text};

verus! {

/// Where the title of a session came from.
#[derive(Clone, Copy, Debug, PartialEq, Eq, Structural)]
pub enum SessionTitleSource {
    Default,
    Auto,
    Manual,
    Channel,
}

/// Whether a session may be renamed automatically.
#[derive(Clone, Copy, Debug, PartialEq, Eq, Structural)]
pub enum SessionAutoRenamePolicy {
    Enabled,
    Disabled,
    Inherit,
}

/// The stored name of a title source.
pub open spec fn title_source_name(s: SessionTitleSource) -> Seq<char> {
    match s {
        SessionTitleSource::Default => "default"@,
        SessionTitleSource::Auto => "auto"@,
        SessionTitleSource::Manual => "manual"@,
        SessionTitleSource::Channel => "channel"@,
    }
}

/// The title source whose stored name is `raw`, if any.
pub open spec fn parse_title_source(raw: Seq<char>) -> Option<SessionTitleSource> {
    if raw == "default"@ {
        Some(SessionTitleSource::Default)
    } else if raw == "auto"@ {
        Some(SessionTitleSource::Auto)
    } else if raw == "manual"@ {
        Some(SessionTitleSource::Manual)
    } else if raw == "channel"@ {
        Some(SessionTitleSource::Channel)
    } else {
        None
    }
}

/// The stored name of a rename policy.
pub open spec fn rename_policy_name(p: SessionAutoRenamePolicy) -> Seq<char> {
    match p {
        SessionAutoRenamePolicy::Enabled => "enabled"@,
        SessionAutoRenamePolicy::Disabled => "disabled"@,
        SessionAutoRenamePolicy::Inherit => "inherit"@,
    }
}

/// The rename policy whose stored name is `raw`, if any.
pub open spec fn parse_rename_policy(raw: Seq<char>) -> Option<SessionAutoRenamePolicy> {
    if raw == "enabled"@ {
        Some(SessionAutoRenamePolicy::Enabled)
    } else if raw == "disabled"@ {
        Some(SessionAutoRenamePolicy::Disabled)
    } else if raw == "inherit"@ {
        Some(SessionAutoRenamePolicy::Inherit)
    } else {
        None
    }
}

impl SessionTitleSource {
    /// The name under which the source is stored.
    pub fn as_str(self) -> (r: &'static str)
        ensures
            r@ == title_source_name(self),
    {
        match self {
            SessionTitleSource::Default => "default",
            SessionTitleSource::Auto => "auto",
            SessionTitleSource::Manual => "manual",
            SessionTitleSource::Channel => "channel",
        }
    }

    /// Reads a stored title source.
    pub fn parse(raw: &str) -> (r: Result<Self, AiaStoreError>)
        ensures
            match r {
                Ok(s) => parse_title_source(raw@) == Some(s),
                Err(e) => parse_title_source(raw@) is None && e@ == "unknown session title source: "@
                    + raw@,
            },
    {
        if text_eq(raw, "default") {
            Ok(SessionTitleSource::Default)
        } else if text_eq(raw, "auto") {
            Ok(SessionTitleSource::Auto)
        } else if text_eq(raw, "manual") {
            Ok(SessionTitleSource::Manual)
        } else if text_eq(raw, "channel") {
            Ok(SessionTitleSource::Channel)
        } else {
            let mut message = owned("unknown session title source: ");
            push_text(&mut message, raw);
            Err(AiaStoreError::new(message))
        }
    }
}

impl SessionAutoRenamePolicy {
    /// The name under which the policy is stored.
    pub fn as_str(self) -> (r: &'static str)
        ensures
            r@ == rename_policy_name(self),
    {
        match self {
            SessionAutoRenamePolicy::Enabled => "enabled",
            SessionAutoRenamePolicy::Disabled => "disabled",
            SessionAutoRenamePolicy::Inherit => "inherit",
        }
    }

    /// Reads a stored rename policy.
    pub fn parse(raw: &str) -> (r: Result<Self, AiaStoreError>)
        ensures
            match r {
                Ok(p) => parse_rename_policy(raw@) == Some(p),
                Err(e) => parse_rename_policy(raw@) is None && e@
                    == "unknown session auto rename policy: "@ + raw@,
            },
    {
        if text_eq(raw, "enabled") {
            Ok(SessionAutoRenamePolicy::Enabled)
        } else if text_eq(raw, "disabled") {
            Ok(SessionAutoRenamePolicy::Disabled)
        } else if text_eq(raw, "inherit") {
            Ok(SessionAutoRenamePolicy::Inherit)
        } else {
            let mut message = owned("unknown session auto rename policy: ");
            push_text(&mut message, raw);
            Err(AiaStoreError::new(message))
        }
    }
}

/// Law: a title source read back from its stored name is the same source.
pub proof fn law_title_source_round_trip(s: SessionTitleSource)
    ensures
        parse_title_source(title_source_name(s)) == Some(s),
{
    reveal_strlit("default");
    reveal_strlit("auto");
    reveal_strlit("manual");
    reveal_strlit("channel");
    assert("default"@.len() == 7 && "auto"@.len() == 4 && "manual"@.len() == 6 && "channel"@.len() == 7);
    assert("default"@[0] != "channel"@[0]);
}

/// Law: a rename policy read back from its stored name is the same policy.
pub proof fn law_rename_policy_round_trip(p: SessionAutoRenamePolicy)
    ensures
        parse_rename_policy(rename_policy_name(p)) == Some(p),
{
    reveal_strlit("enabled");
    reveal_strlit("disabled");
    reveal_strlit("inherit");
    assert("enabled"@.len() == 7 && "disabled"@.len() == 8 && "inherit"@.len() == 7);
    assert("enabled"@[0] != "inherit"@[0]);
}

/// A stored session.
#[derive(Clone, Debug, PartialEq, Eq)]
pub struct SessionRecord {
    pub id: String,
    pub title: String,
    pub title_source: SessionTitleSource,
    pub auto_rename_policy: SessionAutoRenamePolicy,
    pub created_at: String,
    pub updated_at: String,
    pub last_active_at: String,
    pub model: String,
}

/// The title source a session gets from its title: an empty (after trimming)
/// or default title counts as the default one, any other as a manual one.
pub open spec fn default_title_source(title: Seq<char>) -> SessionTitleSource {
    if trimmed(title).len() == 0 || trimmed(title) == DEFAULT_SESSION_TITLE@ {
        SessionTitleSource::Default
    } else {
        SessionTitleSource::Manual
    }
}

/// The title source a session gets from its title.
pub fn default_title_source_for_title(title: &str) -> (r: SessionTitleSource)
    ensures
        r == default_title_source(title@),
{
    let normalized = trim(title);
    if normalized.as_str().is_empty() || text_eq(normalized.as_str(), DEFAULT_SESSION_TITLE) {
        SessionTitleSource::Default
    } else {
        SessionTitleSource::Manual
    }
}

impl SessionRecord {
    /// A session created now, with its title source derived from the title and
    /// automatic renaming enabled.
    pub fn new(id: &str, title: &str, model: &str) -> (r: Self)
        ensures
            r.id@ == id@,
            r.title@ == title@,
            r.model@ == model@,
            r.title_source == default_title_source(title@),
            r.auto_rename_policy == SessionAutoRenamePolicy::Enabled,
            r.created_at == r.updated_at,
            r.updated_at == r.last_active_at,
            exists|secs: u64| r.created_at@ == iso8601_text(secs as nat),
    {
        let title_source = default_title_source_for_title(title);
        Self::new_with_metadata(id, title, model, title_source, SessionAutoRenamePolicy::Enabled)
    }

    /// A session created now with the given metadata.
    pub fn new_with_metadata(
        id: &str,
        title: &str,
        model: &str,
        title_source: SessionTitleSource,
        auto_rename_policy: SessionAutoRenamePolicy,
    ) -> (r: Self)
        ensures
            r.id@ == id@,
            r.title@ == title@,
            r.model@ == model@,
            r.title_source == title_source,
            r.auto_rename_policy == auto_rename_policy,
            r.created_at == r.updated_at,
            r.updated_at == r.last_active_at,
            exists|secs: u64| r.created_at@ == iso8601_text(secs as nat),
    {
        let now = iso8601_now();
        SessionRecord {
            id: owned(id),
            title: owned(title),
            title_source,
            auto_rename_policy,
            created_at: now.clone(),
            updated_at: now.clone(),
            last_active_at: now,
            model: owned(model),
        }
    }
}

/// A stored session together with its automatic-rename counters.
#[derive(Clone, Debug)]
pub struct SessionRenameState {
    pub record: SessionRecord,
    pub user_turn_count_since_last_rename: u32,
    pub rename_after_user_turns: u32,
}

/// What a completed user turn does to a session's rename counters.
#[derive(Debug)]
pub enum AutoRenameStep {
    /// The session is not renamed automatically; nothing is stored.
    Ignore,
    /// The counters are stored; no rename is due.
    Record(SessionRenameState),
    /// The counters are stored and the session is due for a new title.
    Schedule(SessionRenameState),
}

/// A session is renamed automatically when its policy allows it and its
/// title was not chosen by hand or by a channel.
pub open spec fn renames_automatically(record: SessionRecord) -> bool {
    record.auto_rename_policy == SessionAutoRenamePolicy::Enabled && (record.title_source
        == SessionTitleSource::Default || record.title_source == SessionTitleSource::Auto)
}

/// `a + 1`, saturating at `u32::MAX`.
pub open spec fn saturating_inc(a: u32) -> u32 {
    if a == u32::MAX {
        a
    } else {
        (a + 1) as u32
    }
}

/// The step a completed user turn takes; `fresh_threshold` is the threshold
/// the counters restart with when a rename is scheduled.
pub open spec fn completed_user_turn_step(
    row: SessionRenameState,
    allow_schedule: bool,
    fresh_threshold: u32,
) -> AutoRenameStep {
    if !renames_automatically(row.record) {
        AutoRenameStep::Ignore
    } else {
        let count = saturating_inc(row.user_turn_count_since_last_rename);
        if allow_schedule && count >= row.rename_after_user_turns {
            AutoRenameStep::Schedule(
                SessionRenameState {
                    record: row.record,
                    user_turn_count_since_last_rename: 0,
                    rename_after_user_turns: fresh_threshold,
                },
            )
        } else {
            AutoRenameStep::Record(
                SessionRenameState {
                    record: row.record,
                    user_turn_count_since_last_rename: count,
                    rename_after_user_turns: row.rename_after_user_turns,
                },
            )
        }
    }
}

/// Counts one completed user turn of a session.
pub fn plan_completed_user_turn(
    row: SessionRenameState,
    allow_schedule: bool,
    fresh_threshold: u32,
) -> (r: AutoRenameStep)
    ensures
        r == completed_user_turn_step(row, allow_schedule, fresh_threshold),
{
    let enabled = match row.record.auto_rename_policy {
        SessionAutoRenamePolicy::Enabled => true,
        _ => false,
    };
    let automatic_title = match row.record.title_source {
        SessionTitleSource::Default | SessionTitleSource::Auto => true,
        _ => false,
    };
    if !enabled || !automatic_title {
        return AutoRenameStep::Ignore;
    }
    let count = row.user_turn_count_since_last_rename.saturating_add(1);
    if allow_schedule && count >= row.rename_after_user_turns {
        AutoRenameStep::Schedule(
            SessionRenameState {
                record: row.record,
                user_turn_count_since_last_rename: 0,
                rename_after_user_turns: fresh_threshold,
            },
        )
    } else {
        let threshold = row.rename_after_user_turns;
        AutoRenameStep::Record(
            SessionRenameState {
                record: row.record,
                user_turn_count_since_last_rename: count,
                rename_after_user_turns: threshold,
            },
        )
    }
}

/// The rename threshold for the clock's sub-second nanoseconds `nanos`:
/// 3, 4 or 5 user turns.
pub open spec fn rename_threshold(nanos: u32) -> u32 {
    (3 + nanos % 3) as u32
}

/// The rename threshold drawn from the sub-second nanoseconds of the clock.
pub fn rename_threshold_from_nanos(nanos: u32) -> (r: u32)
    ensures
        r == 3 + nanos % 3,
        r == rename_threshold(nanos),
{
    3 + nanos % 3
}

/// A new rename threshold, drawn from the clock's sub-second nanoseconds.
pub fn next_session_rename_threshold() -> (r: u32)
    ensures
        exists|n: u32| n < 1_000_000_000 && r == #[trigger] rename_threshold(n),
{
    let nanos = unix_subsec_nanos();
    rename_threshold_from_nanos(nanos)
}

/// Counts one completed user turn of a session, drawing a new threshold when
/// a rename is scheduled.
pub fn note_completed_user_turn(row: SessionRenameState, allow_schedule: bool) -> (r:
    AutoRenameStep)
    ensures
        exists|n: u32|
            n < 1_000_000_000 && r == completed_user_turn_step(
                row,
                allow_schedule,
                #[trigger] rename_threshold(n),
            ),
{
    let fresh = next_session_rename_threshold();
    plan_completed_user_turn(row, allow_schedule, fresh)
}

/// The session after an automatic rename to `title` at time `now`, or none
/// when the title is unchanged or was not chosen automatically.
pub open spec fn auto_renamed(record: SessionRecord, title: String, now: String) -> Option<
    SessionRecord,
> {
    if record.title@ == title@ || !(record.title_source == SessionTitleSource::Default
        || record.title_source == SessionTitleSource::Auto) {
        None
    } else {
        Some(
            SessionRecord {
                title: title,
                title_source: SessionTitleSource::Auto,
                updated_at: now,
                ..record
            },
        )
    }
}

/// Renames a session automatically.
pub fn apply_auto_rename_title(record: SessionRecord, title: String, now: String) -> (r: Option<
    SessionRecord,
>)
    ensures
        r == auto_renamed(record, title, now),
        (record.title_source == SessionTitleSource::Default || record.title_source
            == SessionTitleSource::Auto) && record.title@ != title@ ==> (r matches Some(renamed)
            && renamed.title == title && renamed.title_source == SessionTitleSource::Auto
            && renamed.updated_at == now),
        record.title_source == SessionTitleSource::Manual || record.title_source
            == SessionTitleSource::Channel || record.title@ == title@ ==> r is None,
{
    if record.title == title {
        return None;
    }
    let automatic_title = match record.title_source {
        SessionTitleSource::Default | SessionTitleSource::Auto => true,
        _ => false,
    };
    if !automatic_title {
        return None;
    }
    Some(
        SessionRecord {
            title: title,
            title_source: SessionTitleSource::Auto,
            updated_at: now,
            ..record
        },
    )
}

/// Law: renaming a session automatically to the title it was just given
/// changes nothing.
pub proof fn law_auto_rename_idempotent(record: SessionRecord, title: String, now: String, later: String)
    requires
        auto_renamed(record, title, now) is Some,
    ensures
        auto_renamed(auto_renamed(record, title, now)->0, title, later) is None,
{
}

/// Law: a session that is renamed automatically and counts completed turns
/// with scheduling allowed is scheduled exactly on the turn that reaches its
/// threshold, and starts counting again from zero.
pub proof fn law_rename_scheduled_at_threshold(row: SessionRenameState, fresh_threshold: u32)
    requires
        renames_automatically(row.record),
        row.user_turn_count_since_last_rename < u32::MAX,
    ensures
        (completed_user_turn_step(row, true, fresh_threshold) is Schedule)
            <==> row.user_turn_count_since_last_rename + 1 >= row.rename_after_user_turns,
        completed_user_turn_step(row, true, fresh_threshold) matches AutoRenameStep::Schedule(next)
            ==> next.user_turn_count_since_last_rename == 0 && next.rename_after_user_turns
            == fresh_threshold,
        completed_user_turn_step(row, false, fresh_threshold) matches AutoRenameStep::Record(next)
            && next.user_turn_count_since_last_rename == row.user_turn_count_since_last_rename + 1,
{
}

/// Law: an automatic rename is accepted exactly for sessions whose title was
/// never chosen by hand or by a channel (its source is the default one or an
/// earlier automatic rename), and only with a title that differs from the
/// current one. An accepted rename carries the new title, marks it as
/// automatic, stamps the update time and keeps every other field.
pub proof fn law_auto_rename_accepts_automatic_titles(
    record: SessionRecord,
    title: String,
    now: String,
)
    ensures
        (auto_renamed(record, title, now) is Some) <==> (record.title@ != title@ && (
        record.title_source == SessionTitleSource::Default || record.title_source
            == SessionTitleSource::Auto)),
        auto_renamed(record, title, now) is Some ==> {
            let renamed = auto_renamed(record, title, now)->0;
            &&& renamed.title == title
            &&& renamed.title_source == SessionTitleSource::Auto
            &&& renamed.updated_at == now
            &&& renamed.id == record.id
            &&& renamed.auto_rename_policy == record.auto_rename_policy
            &&& renamed.created_at == record.created_at
            &&& renamed.last_active_at == record.last_active_at
            &&& renamed.model == record.model
        },
{
}

/// Law: a session that renames automatically accepts the rename it was
/// scheduled for whenever the proposed title is new, whether its current
/// title is the default one or came from an earlier automatic rename.
pub proof fn law_scheduled_sessions_accept_new_titles(
    record: SessionRecord,
    title: String,
    now: String,
)
    requires
        renames_automatically(record),
        record.title@ != title@,
    ensures
        (auto_renamed(record, title, now) matches Some(renamed) && renamed.title == title
            && renamed.title_source == SessionTitleSource::Auto),
{
}

} // verus!
