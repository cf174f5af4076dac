//! Tournament models that hold no floating-point or date-time field.

use vstd::prelude::*;

verus! {

/// Image URLs of a tournament listing.
#[derive(Debug, Clone, PartialEq, Eq, Default)]
pub struct TournamentImages {
    pub trophy: Option<String>,
    pub title_card: Option<String>,
    pub title_card_centered: Option<String>,
    pub artwork: Option<String>,
    pub artwork_cropped: Option<String>,
    pub artwork_mobile: Option<String>,
}

/// Theming colors of a tournament listing.
#[derive(Debug, Clone, PartialEq, Eq)]
pub struct TournamentColors {
    pub primary: String,
    pub secondary: String,
    pub gradient: String,
    pub gradient_button: bool,
}

/// Burn ruleset of a tournament.
#[derive(Debug, Clone, PartialEq, Eq)]
pub struct BurnRuleset {
    pub min: u32,
    pub max: u32,
    pub exclusive_pieces: Vec<String>,
    pub exclusive_piece_types: Vec<String>,
    pub banned_pieces: Vec<String>,
    pub banned_piece_types: Vec<String>,
}

/// Substitution rule of a gameplay ruleset.
#[derive(Debug, Clone, PartialEq, Eq)]
pub struct SubstitutionRule {
    pub min: u32,
    pub max: u32,
}

/// Gameplay ruleset of a tournament.
#[derive(Debug, Clone, PartialEq, Eq, Default)]
pub struct GameplayRuleset {
    pub substitution: Option<SubstitutionRule>,
}

/// Full ruleset of a tournament.
#[derive(Debug, Clone, PartialEq, Eq, Default)]
pub struct TournamentRuleset {
    pub burn: Option<BurnRuleset>,
    pub gameplay: Option<GameplayRuleset>,
}

/// UI notification state of a tournament.
#[derive(Debug, Clone, PartialEq, Eq, Default)]
pub struct NotificationStatus {
    pub registration_soon: bool,
    pub registration_open: bool,
    pub starting_soon_for: Vec<String>,
    pub starting_now: bool,
}

/// One player's timing in a tournament game.
#[derive(Debug, Clone, PartialEq, Eq)]
pub struct GameTimingPlayer {
    pub user_id: String,
    pub turn_start_time: Option<i64>,
    pub elapsed: i64,
    pub status: Option<String>,
}

} // verus!
