//! The session record of the first store layout, which kept no title
//! metadata; its identifiers and timestamps are made as in the current one.
use vstd::prelude::*;

pub use crate::timestamp::{generate_session_id, iso8601_now};

verus! {

/// A stored session of the first store layout.
#[derive(Clone, Debug, PartialEq, Eq)]
pub struct SessionRecord {
    pub id: String,
    pub title: String,
    pub created_at: String,
    pub updated_at: String,
    pub model: String,
}

} // verus!
