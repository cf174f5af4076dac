//! Game models: the parts of a single-game document that hold no outside
//! value.

use vstd::prelude::*;

verus! {

/// How a finished game ended (often empty; room for more diagnostics).
#[derive(Debug, Clone, PartialEq, Eq, Default)]
pub struct GameEnding {
    pub piece_key: Option<String>,
}

/// Result block on a finished game.
#[derive(Debug, Clone, PartialEq, Eq)]
pub struct GameResult {
    pub code: String,
    pub winner: i64,
    pub piece_key: Option<String>,
    pub winner_id: String,
    pub ending: Option<GameEnding>,
}

} // verus!
