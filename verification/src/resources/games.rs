//! Game endpoints: `GET /game/{gameId}` and
//! `GET /game/{gameId}/rating/{address}`.

use vstd::prelude::*;

use crate::http::Request;
use crate::resources::{is_request, join_path, path_request};

verus! {

/// Accessor for game endpoints.
pub struct GamesResource {}

impl GamesResource {
    /// The accessor.
    pub fn new() -> GamesResource {
        GamesResource {  }
    }

    /// A single game by its id.
    pub fn get(&self, game_id: &str) -> (b: GamesGetBuilder)
        ensures
            b.game_id_text() == game_id@,
    {
        GamesGetBuilder { game_id: String::from_str(game_id) }
    }

    /// The rating change a player saw from a game.
    pub fn rating_change(&self, game_id: &str, address: &str) -> (b: RatingChangeBuilder)
        ensures
            b.game_id_text() == game_id@,
            b.address_text() == address@,
    {
        RatingChangeBuilder { game_id: String::from_str(game_id), address: String::from_str(address) }
    }
}

/// Builder for [`GamesResource::get`].
pub struct GamesGetBuilder {
    game_id: String,
}

impl GamesGetBuilder {
    /// The game id.
    pub closed spec fn game_id_text(&self) -> Seq<char> {
        self.game_id@
    }

    /// The request: `GET /game/{gameId}`.
    pub fn request(&self) -> (r: Request)
        ensures
            is_request(r, "/game/"@ + self.game_id_text(), Seq::empty()),
    {
        path_request(join_path("/game/", self.game_id.as_str()))
    }
}

/// Builder for [`GamesResource::rating_change`].
pub struct RatingChangeBuilder {
    game_id: String,
    address: String,
}

impl RatingChangeBuilder {
    /// The game id.
    pub closed spec fn game_id_text(&self) -> Seq<char> {
        self.game_id@
    }

    /// The player's address.
    pub closed spec fn address_text(&self) -> Seq<char> {
        self.address@
    }

    /// The request: `GET /game/{gameId}/rating/{address}`.
    pub fn request(&self) -> (r: Request)
        ensures
            is_request(
                r,
                "/game/"@ + self.game_id_text() + "/rating/"@ + self.address_text(),
                Seq::empty(),
            ),
    {
        let head = join_path("/game/", self.game_id.as_str());
        let path = head.concat("/rating/").concat(self.address.as_str());
        path_request(path)
    }
}

} // verus!
