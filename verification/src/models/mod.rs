//! Models of `api.pixiechess.xyz` response bodies, and the calendar-date
//! rules that their date fields follow.
//!
//! Field names are `snake_case` here and `camelCase` on the wire; the JSON
//! decoding of these types lives with the transport.

pub mod auctions;
pub mod common;
pub mod game;
pub mod leaderboard;
pub mod misc;
pub mod pieces;
pub mod tournaments;
pub mod user;

pub use auctions::{AuctionMetadata, InstantMintPrice, Prices, VrgdaPrice};
pub use common::{CalendarDate, DateTextError, Helmet, PlayerInfo, ResponseMeta, SuggestSignup};
pub use game::{GameEnding, GameResult};
pub use leaderboard::{LeaderboardStats, PointsLeaderboardCurrentUser};
pub use misc::PublicConfig;
pub use pieces::{BurnedInfo, BurnedTournament};
pub use tournaments::{
    BurnRuleset, GameTimingPlayer, GameplayRuleset, NotificationStatus, SubstitutionRule,
    TournamentColors, TournamentImages, TournamentRuleset,
};
pub use user::{ColorRecord, MatchTiming};
