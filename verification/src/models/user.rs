//! User-profile models that hold no floating-point or date-time field.

use vstd::prelude::*;

verus! {

/// Per-color win/loss/draw tally on a user record.
#[derive(Debug, Clone, PartialEq, Eq, Default)]
pub struct ColorRecord {
    pub wins: u32,
    pub losses: u32,
    pub draws: u32,
    pub total: u32,
}

/// Per-side timing of a match-history entry.
#[derive(Debug, Clone, PartialEq, Eq)]
pub struct MatchTiming {
    pub white_elapsed_ms: u64,
    pub black_elapsed_ms: u64,
    pub clock_ms: u64,
}

} // verus!
