//! The system clock and a source of random bits.
use vstd::prelude::*;

verus! {

/// Whole seconds since the Unix epoch, 0 when the clock is before it.
/// Calls `SystemTime::now`; nothing is promised of the value, which depends on the time.
#[verifier::external_body]
pub(crate) fn unix_time_secs() -> u64 {
    std::time::SystemTime::now()
        .duration_since(std::time::UNIX_EPOCH)
        .unwrap_or_default()
        .as_secs()
}

/// The sub-second part, in nanoseconds, of the time since the Unix epoch.
/// Calls `SystemTime::now`; the contract only bounds the value below one second.
#[verifier::external_body]
pub(crate) fn unix_subsec_nanos() -> (r: u32)
    ensures
        r < 1_000_000_000,
{
    std::time::SystemTime::now()
        .duration_since(std::time::UNIX_EPOCH)
        .unwrap_or_default()
        .subsec_nanos()
}

/// 32 random bits, drawn from the randomly keyed hasher of the standard library.
/// Calls `BuildHasher::hash_one` on a fresh `RandomState`; nothing is promised of the value.
#[verifier::external_body]
pub(crate) fn random_u32() -> u32 {
    std::hash::BuildHasher::hash_one(
        &std::collections::hash_map::RandomState::new(),
        0u8,
    ) as u32
}

} // verus!
