//! Burn records attached to pieces.

use vstd::prelude::*;

verus! {

/// Tournament context of a burned piece; `tournament_id` is absent on
/// burns not tied to a tournament redemption.
#[derive(Debug, Clone, PartialEq, Eq)]
pub struct BurnedTournament {
    pub tournament_id: Option<String>,
    pub name: String,
    pub color: String,
}

/// Burn record attached to a piece: when, and in what tournament context.
#[derive(Debug, Clone, PartialEq, Eq)]
pub struct BurnedInfo {
    pub time: i64,
    pub tournament: BurnedTournament,
}

} // verus!
