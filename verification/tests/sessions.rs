use aia::channel::{ChannelMessageReceipt, ChannelSessionBinding, ExternalConversationKey};
use aia::session::{
    apply_auto_rename_title, default_title_source_for_title, next_session_rename_threshold,
    note_completed_user_turn, plan_completed_user_turn, AutoRenameStep, SessionAutoRenamePolicy,
    SessionRecord, SessionRenameState, SessionTitleSource,
};

fn record_with(title_source: SessionTitleSource, policy: SessionAutoRenamePolicy) -> SessionRecord {
    SessionRecord::new_with_metadata("20260315_abcd1234", "New session", "gpt-4.1", title_source, policy)
}

fn rename_state(record: SessionRecord, count: u32, threshold: u32) -> SessionRenameState {
    SessionRenameState {
        record,
        user_turn_count_since_last_rename: count,
        rename_after_user_turns: threshold,
    }
}

#[test]
fn new_session_derives_title_source_and_enables_auto_rename() {
    let record = SessionRecord::new("20260315_abcd1234", "Test session", "gpt-4.1");
    assert_eq!(record.id, "20260315_abcd1234");
    assert_eq!(record.title, "Test session");
    assert_eq!(record.model, "gpt-4.1");
    assert_eq!(record.title_source, SessionTitleSource::Manual);
    assert_eq!(record.auto_rename_policy, SessionAutoRenamePolicy::Enabled);
    assert_eq!(record.last_active_at, record.created_at);
    assert_eq!(record.updated_at, record.created_at);
    assert_eq!(record.created_at.len(), 20);

    let default_record = SessionRecord::new("s2", "New session", "gpt-4.1");
    assert_eq!(default_record.title_source, SessionTitleSource::Default);
}

#[test]
fn blank_or_default_titles_count_as_default() {
    assert_eq!(default_title_source_for_title(""), SessionTitleSource::Default);
    assert_eq!(default_title_source_for_title("   "), SessionTitleSource::Default);
    assert_eq!(default_title_source_for_title("New session"), SessionTitleSource::Default);
    assert_eq!(default_title_source_for_title("  New session\n"), SessionTitleSource::Default);
    assert_eq!(default_title_source_for_title("new session"), SessionTitleSource::Manual);
    assert_eq!(default_title_source_for_title("Planning"), SessionTitleSource::Manual);
}

#[test]
fn title_sources_and_policies_read_back_from_their_names() {
    for source in [
        SessionTitleSource::Default,
        SessionTitleSource::Auto,
        SessionTitleSource::Manual,
        SessionTitleSource::Channel,
    ] {
        assert_eq!(SessionTitleSource::parse(source.as_str()).unwrap(), source);
    }
    for policy in [
        SessionAutoRenamePolicy::Enabled,
        SessionAutoRenamePolicy::Disabled,
        SessionAutoRenamePolicy::Inherit,
    ] {
        assert_eq!(SessionAutoRenamePolicy::parse(policy.as_str()).unwrap(), policy);
    }
    assert_eq!(SessionTitleSource::Channel.as_str(), "channel");
    assert_eq!(SessionAutoRenamePolicy::Inherit.as_str(), "inherit");
}

#[test]
fn unknown_title_source_and_policy_are_refused() {
    let error = SessionTitleSource::parse("robot").unwrap_err();
    assert_eq!(error.to_message(), "unknown session title source: robot");
    let error = SessionAutoRenamePolicy::parse("Enabled").unwrap_err();
    assert_eq!(error.to_message(), "unknown session auto rename policy: Enabled");
}

#[test]
fn completed_turns_count_until_the_threshold_schedules_a_rename() {
    let record = record_with(SessionTitleSource::Default, SessionAutoRenamePolicy::Enabled);
    match plan_completed_user_turn(rename_state(record.clone(), 0, 3), true, 4) {
        AutoRenameStep::Record(row) => {
            assert_eq!(row.user_turn_count_since_last_rename, 1);
            assert_eq!(row.rename_after_user_turns, 3);
        }
        other => panic!("unexpected step: {other:?}"),
    }
    match plan_completed_user_turn(rename_state(record.clone(), 2, 3), true, 5) {
        AutoRenameStep::Schedule(row) => {
            assert_eq!(row.user_turn_count_since_last_rename, 0);
            assert_eq!(row.rename_after_user_turns, 5);
            assert_eq!(row.record.id, "20260315_abcd1234");
        }
        other => panic!("unexpected step: {other:?}"),
    }
    match plan_completed_user_turn(rename_state(record, 2, 3), false, 5) {
        AutoRenameStep::Record(row) => {
            assert_eq!(row.user_turn_count_since_last_rename, 3);
            assert_eq!(row.rename_after_user_turns, 3);
        }
        other => panic!("unexpected step: {other:?}"),
    }
}

#[test]
fn manual_titles_and_disabled_policies_are_never_renamed() {
    let manual = record_with(SessionTitleSource::Manual, SessionAutoRenamePolicy::Enabled);
    assert!(matches!(plan_completed_user_turn(rename_state(manual, 9, 3), true, 3), AutoRenameStep::Ignore));
    let channel = record_with(SessionTitleSource::Channel, SessionAutoRenamePolicy::Enabled);
    assert!(matches!(plan_completed_user_turn(rename_state(channel, 9, 3), true, 3), AutoRenameStep::Ignore));
    let disabled = record_with(SessionTitleSource::Auto, SessionAutoRenamePolicy::Disabled);
    assert!(matches!(plan_completed_user_turn(rename_state(disabled, 9, 3), true, 3), AutoRenameStep::Ignore));
    let inherit = record_with(SessionTitleSource::Auto, SessionAutoRenamePolicy::Inherit);
    assert!(matches!(plan_completed_user_turn(rename_state(inherit, 9, 3), true, 3), AutoRenameStep::Ignore));
}

#[test]
fn turn_counter_saturates() {
    let record = record_with(SessionTitleSource::Auto, SessionAutoRenamePolicy::Enabled);
    match plan_completed_user_turn(rename_state(record, u32::MAX, u32::MAX), false, 3) {
        AutoRenameStep::Record(row) => assert_eq!(row.user_turn_count_since_last_rename, u32::MAX),
        other => panic!("unexpected step: {other:?}"),
    }
}

#[test]
fn fresh_rename_thresholds_lie_between_three_and_five() {
    for _ in 0..50 {
        let t = next_session_rename_threshold();
        assert!((3..=5).contains(&t));
    }
    let record = record_with(SessionTitleSource::Default, SessionAutoRenamePolicy::Enabled);
    match note_completed_user_turn(rename_state(record, 4, 5), true) {
        AutoRenameStep::Schedule(row) => {
            assert_eq!(row.user_turn_count_since_last_rename, 0);
            assert!((3..=5).contains(&row.rename_after_user_turns));
        }
        other => panic!("unexpected step: {other:?}"),
    }
}

#[test]
fn auto_rename_updates_title_source_and_timestamp() {
    let record = record_with(SessionTitleSource::Default, SessionAutoRenamePolicy::Enabled);
    let renamed = apply_auto_rename_title(record.clone(), "Trip planning".to_string(), "2026-03-16T00:00:00Z".to_string())
        .expect("renamed");
    assert_eq!(renamed.title, "Trip planning");
    assert_eq!(renamed.title_source, SessionTitleSource::Auto);
    assert_eq!(renamed.updated_at, "2026-03-16T00:00:00Z");
    assert_eq!(renamed.created_at, record.created_at);
    assert_eq!(renamed.id, record.id);
}

#[test]
fn auto_rename_to_the_same_title_changes_nothing() {
    let record = record_with(SessionTitleSource::Default, SessionAutoRenamePolicy::Enabled);
    let renamed = apply_auto_rename_title(record, "Trip".to_string(), "t1".to_string()).unwrap();
    assert!(apply_auto_rename_title(renamed, "Trip".to_string(), "t2".to_string()).is_none());
}

#[test]
fn auto_rename_leaves_manual_titles_alone() {
    let record = record_with(SessionTitleSource::Manual, SessionAutoRenamePolicy::Enabled);
    assert!(apply_auto_rename_title(record, "Other".to_string(), "t".to_string()).is_none());
    let record = record_with(SessionTitleSource::Channel, SessionAutoRenamePolicy::Enabled);
    assert!(apply_auto_rename_title(record, "Other".to_string(), "t".to_string()).is_none());
}

#[test]
fn channel_binding_and_receipt_are_stamped_now() {
    let key = ExternalConversationKey {
        channel_kind: "feishu".to_string(),
        profile_id: "default".to_string(),
        scope: "p2p".to_string(),
        conversation_key: "chat-1".to_string(),
    };
    let binding = ChannelSessionBinding::new(key, "20260315_abcd1234");
    assert_eq!(binding.channel_kind, "feishu");
    assert_eq!(binding.conversation_key, "chat-1");
    assert_eq!(binding.session_id, "20260315_abcd1234");
    assert_eq!(binding.created_at, binding.updated_at);
    assert_eq!(binding.created_at.len(), 20);

    let receipt = ChannelMessageReceipt::new("feishu", "default", "msg-1", "20260315_abcd1234");
    assert_eq!(receipt.external_message_id, "msg-1");
    assert!(receipt.created_at.ends_with('Z'));
}

#[test]
fn rename_thresholds_follow_the_nanoseconds() {
    assert_eq!(aia::session::rename_threshold_from_nanos(0), 3);
    assert_eq!(aia::session::rename_threshold_from_nanos(1), 4);
    assert_eq!(aia::session::rename_threshold_from_nanos(2), 5);
    assert_eq!(aia::session::rename_threshold_from_nanos(999_999_999), 3);
    assert_eq!(aia::session::rename_threshold_from_nanos(1_000_000), 4);
}
