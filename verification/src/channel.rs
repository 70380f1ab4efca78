//! Bindings between external channel conversations and sessions.
use vstd::prelude::*;

use crate::text::owned;
use crate::timestamp::{iso8601_now, iso8601_text};

verus! {

/// The identity of a conversation in an external channel.
#[derive(Clone, Debug, PartialEq, Eq)]
pub struct ExternalConversationKey {
    pub channel_kind: String,
    pub profile_id: String,
    pub scope: String,
    pub conversation_key: String,
}

/// The session that serves an external conversation.
#[derive(Clone, Debug, PartialEq, Eq)]
pub struct ChannelSessionBinding {
    pub channel_kind: String,
    pub profile_id: String,
    pub scope: String,
    pub conversation_key: String,
    pub session_id: String,
    pub created_at: String,
    pub updated_at: String,
}

/// The record that an external message has been received.
#[derive(Clone, Debug, PartialEq, Eq)]
pub struct ChannelMessageReceipt {
    pub channel_kind: String,
    pub profile_id: String,
    pub external_message_id: String,
    pub session_id: String,
    pub created_at: String,
}

impl ChannelSessionBinding {
    /// A binding of the conversation `key` to a session, created now.
    pub fn new(key: ExternalConversationKey, session_id: &str) -> (r: Self)
        ensures
            r.channel_kind == key.channel_kind,
            r.profile_id == key.profile_id,
            r.scope == key.scope,
            r.conversation_key == key.conversation_key,
            r.session_id@ == session_id@,
            r.created_at == r.updated_at,
            exists|secs: u64| r.created_at@ == iso8601_text(secs as nat),
    {
        let now = iso8601_now();
        ChannelSessionBinding {
            channel_kind: key.channel_kind,
            profile_id: key.profile_id,
            scope: key.scope,
            conversation_key: key.conversation_key,
            session_id: owned(session_id),
            created_at: now.clone(),
            updated_at: now,
        }
    }
}

impl ChannelMessageReceipt {
    /// A receipt of an external message, created now.
    pub fn new(
        channel_kind: &str,
        profile_id: &str,
        external_message_id: &str,
        session_id: &str,
    ) -> (r: Self)
        ensures
            r.channel_kind@ == channel_kind@,
            r.profile_id@ == profile_id@,
            r.external_message_id@ == external_message_id@,
            r.session_id@ == session_id@,
            exists|secs: u64| r.created_at@ == iso8601_text(secs as nat),
    {
        ChannelMessageReceipt {
            channel_kind: owned(channel_kind),
            profile_id: owned(profile_id),
            external_message_id: owned(external_message_id),
            session_id: owned(session_id),
            created_at: iso8601_now(),
        }
    }
}

} // verus!
