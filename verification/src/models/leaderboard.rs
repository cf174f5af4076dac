//! Leaderboard models that hold no floating-point field.

use vstd::prelude::*;

verus! {

/// Page-level stats served alongside the rating-leaderboard entries.
#[derive(Debug, Clone, PartialEq, Eq)]
pub struct LeaderboardStats {
    pub total_ranked_players: u32,
    pub games_today: u32,
    pub active_now: u32,
}

/// The compact `currentUser` projection of the points leaderboard (a
/// zeroed placeholder for guest requests).
#[derive(Debug, Clone, PartialEq, Eq)]
pub struct PointsLeaderboardCurrentUser {
    pub rank: u32,
    pub rank_change: i32,
    pub total_points: u64,
    pub today: u64,
    pub this_week: u64,
}

} // verus!
