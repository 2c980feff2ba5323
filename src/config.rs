//! Timing configuration of the traffic light, in milliseconds.
use vstd::prelude::*;

verus! {

/// How long the red lamp stays lit.
pub const RED_DURATION_MS: u64 = 3000;

/// How long the yellow lamp stays lit.
pub const YELLOW_DURATION_MS: u64 = 1000;

/// How long the green lamp stays lit.
pub const GREEN_DURATION_MS: u64 = 3000;

/// Shortest duration a phase is meant to last.
pub const MIN_DURATION_MS: u64 = 100;

/// Longest duration a phase is meant to last.
pub const MAX_DURATION_MS: u64 = 10000;

/// Every configured phase duration lies strictly between the advisory
/// minimum and maximum.
pub proof fn lemma_durations_within_range()
    ensures
        MIN_DURATION_MS < MAX_DURATION_MS,
        MIN_DURATION_MS < RED_DURATION_MS < MAX_DURATION_MS,
        MIN_DURATION_MS < YELLOW_DURATION_MS < MAX_DURATION_MS,
        MIN_DURATION_MS < GREEN_DURATION_MS < MAX_DURATION_MS,
{
}

} // verus!
