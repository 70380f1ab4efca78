//! Stored provider accounts and the plain parts of the provider registry:
//! adapter kinds, model limits, and which stored models belong to which
//! account.
use vstd::prelude::*;

use crate::error::AiaStoreError;
use crate::text::{owned, push_text, text_eq};
use crate::timestamp::{iso8601_now, iso8601_text};

verus! {

broadcast use vstd::seq_lib::lemma_seq_contains_after_push;

/// A provider account as the store keeps it.
#[derive(Clone, Debug, PartialEq, Eq)]
pub struct StoredProviderAccount {
    pub id: String,
    pub label: String,
    pub adapter: String,
    pub base_url: String,
    pub api_key: String,
    pub created_at: String,
    pub updated_at: String,
}

impl StoredProviderAccount {
    /// The stored form of an account, written now: it keeps its first
    /// creation time when it was stored before, and is otherwise created now.
    pub fn new(
        id: &str,
        label: &str,
        adapter: &str,
        base_url: &str,
        api_key: &str,
        created_at: Option<&str>,
    ) -> (r: Self)
        ensures
            r.id@ == id@,
            r.label@ == label@,
            r.adapter@ == adapter@,
            r.base_url@ == base_url@,
            r.api_key@ == api_key@,
            exists|secs: u64| r.updated_at@ == iso8601_text(secs as nat),
            r.created_at@ == (match created_at {
                Some(c) => c@,
                None => r.updated_at@,
            }),
    {
        let now = iso8601_now();
        let created_at = match created_at {
            Some(c) => owned(c),
            None => now.clone(),
        };
        StoredProviderAccount {
            id: owned(id),
            label: owned(label),
            adapter: owned(adapter),
            base_url: owned(base_url),
            api_key: owned(api_key),
            created_at,
            updated_at: now,
        }
    }
}

/// The wire protocol a provider account speaks.
#[derive(Debug, Clone, Copy, PartialEq, Eq, Structural)]
pub enum AdapterKind {
    OpenAiResponses,
    OpenAiChatCompletions,
}

/// The stored name of an adapter kind.
pub open spec fn adapter_name(kind: AdapterKind) -> Seq<char> {
    match kind {
        AdapterKind::OpenAiResponses => "openai-responses"@,
        AdapterKind::OpenAiChatCompletions => "openai-chat-completions"@,
    }
}

impl AdapterKind {
    /// The stored name of the adapter kind.
    pub fn protocol_name(&self) -> (r: &'static str)
        ensures
            r@ == adapter_name(*self),
    {
        match self {
            AdapterKind::OpenAiResponses => "openai-responses",
            AdapterKind::OpenAiChatCompletions => "openai-chat-completions",
        }
    }
}

/// Reads a stored adapter name; an unknown one is refused with a message
/// that names it.
pub fn parse_adapter_kind(kind: &str) -> (r: Result<AdapterKind, AiaStoreError>)
    ensures
        match r {
            Ok(k) => adapter_name(k) == kind@,
            Err(e) => kind@ != "openai-responses"@ && kind@ != "openai-chat-completions"@ && e@
                == "unknown provider kind: "@ + kind@,
        },
{
    if text_eq(kind, "openai-responses") {
        Ok(AdapterKind::OpenAiResponses)
    } else if text_eq(kind, "openai-chat-completions") {
        Ok(AdapterKind::OpenAiChatCompletions)
    } else {
        let mut message = owned("unknown provider kind: ");
        push_text(&mut message, kind);
        Err(AiaStoreError::new(message))
    }
}

/// Law: the stored names of the adapter kinds are distinct, so every kind
/// reads back from its stored name as itself.
pub proof fn law_adapter_kind_round_trip(kind: AdapterKind)
    ensures
        adapter_name(kind) == "openai-responses"@ <==> kind == AdapterKind::OpenAiResponses,
        adapter_name(kind) == "openai-chat-completions"@ <==> kind
            == AdapterKind::OpenAiChatCompletions,
{
    reveal_strlit("openai-responses");
    reveal_strlit("openai-chat-completions");
    assert("openai-responses"@[7] != "openai-chat-completions"@[7]);
}

/// The token limits of a model.
#[derive(Debug, Clone, Copy, PartialEq, Eq, Structural)]
pub struct ModelLimit {
    pub context: Option<u32>,
    pub output: Option<u32>,
}

/// The limits of a stored model: none when neither limit was stored.
pub fn model_limit(context_limit: Option<u32>, output_limit: Option<u32>) -> (r: Option<ModelLimit>)
    ensures
        r == (if context_limit is None && output_limit is None {
            None
        } else {
            Some(ModelLimit { context: context_limit, output: output_limit })
        }),
{
    match (context_limit, output_limit) {
        (None, None) => None,
        (context, output) => Some(ModelLimit { context, output }),
    }
}

/// The stored models, by position, that belong to the account `provider_id`,
/// in the order they were read.
pub fn models_of_provider(model_provider_ids: &Vec<String>, provider_id: &str) -> (r: Vec<usize>)
    ensures
        forall|a: int, b: int| 0 <= a < b < r@.len() ==> r@[a] < r@[b],
        forall|a: int|
            0 <= a < r@.len() ==> r@[a] < model_provider_ids@.len() && model_provider_ids@[r@[a] as int]@
                == provider_id@,
        forall|i: int|
            0 <= i < model_provider_ids@.len() && (#[trigger] model_provider_ids@[i])@ == provider_id@
                ==> r@.contains(i as usize),
{
    let mut out: Vec<usize> = Vec::new();
    let mut i: usize = 0;
    while i < model_provider_ids.len()
        invariant
            i <= model_provider_ids@.len(),
            forall|a: int, b: int| 0 <= a < b < out@.len() ==> out@[a] < out@[b],
            forall|a: int|
                0 <= a < out@.len() ==> out@[a] < i && model_provider_ids@[out@[a] as int]@
                    == provider_id@,
            forall|j: int|
                0 <= j < i && (#[trigger] model_provider_ids@[j])@ == provider_id@ ==> out@.contains(
                    j as usize,
                ),
        decreases model_provider_ids@.len() - i,
    {
        if text_eq(model_provider_ids[i].as_str(), provider_id) {
            out.push(i);
            assert(out@[out@.len() - 1] == i);
        }
        i = i + 1;
    }
    out
}

} // verus!
