use pixiechess_client::http::Request;
use pixiechess_client::resources::auctions::AuctionsResource;
use pixiechess_client::resources::games::GamesResource;
use pixiechess_client::resources::leaderboard::{lb_params, LeaderboardResource};
use pixiechess_client::resources::misc::MiscResource;
use pixiechess_client::resources::pieces::{burned_params, pieces_params, PiecesResource};
use pixiechess_client::resources::ranks::RanksResource;
use pixiechess_client::resources::tournaments::TournamentsResource;
use pixiechess_client::resources::users::UsersResource;

fn query(r: &Request) -> Vec<(&str, &str)> {
    r.query.iter().map(|(n, v)| (*n, v.as_str())).collect()
}

fn params(p: &[(&'static str, String)]) -> Vec<(&'static str, String)> {
    p.to_vec()
}

#[test]
fn lb_params_page_only_when_page_size_unset() {
    assert_eq!(lb_params(1, None), params(&[("page", "1".into())]));
}

#[test]
fn lb_params_page_then_page_size() {
    assert_eq!(
        lb_params(2, Some(25)),
        params(&[("page", "2".into()), ("pageSize", "25".into())])
    );
    assert_eq!(
        lb_params(u32::MAX, Some(0)),
        params(&[("page", "4294967295".into()), ("pageSize", "0".into())])
    );
}

#[test]
fn pieces_params_page_limit_grouped() {
    assert_eq!(
        pieces_params(2, Some(10), true),
        params(&[("page", "2".into()), ("limit", "10".into()), ("grouped", "true".into())])
    );
    assert_eq!(pieces_params(1, None, false), params(&[("page", "1".into())]));
    assert_eq!(
        pieces_params(3, None, true),
        params(&[("page", "3".into()), ("grouped", "true".into())])
    );
}

#[test]
fn burned_params_page_and_limit() {
    assert_eq!(burned_params(1, None), params(&[("page", "1".into())]));
    assert_eq!(
        burned_params(4, Some(50)),
        params(&[("page", "4".into()), ("limit", "50".into())])
    );
}

#[test]
fn leaderboard_get_request_with_page_and_page_size() {
    let r = LeaderboardResource::new().get().page(2).page_size(25).request();
    assert_eq!(r.path, "/leaderboard");
    assert_eq!(query(&r), vec![("page", "2"), ("pageSize", "25")]);
}

#[test]
fn leaderboard_get_request_omits_page_size_when_unset() {
    let r = LeaderboardResource::new().get().request();
    assert_eq!(r.path, "/leaderboard");
    assert_eq!(query(&r), vec![("page", "1")]);
}

#[test]
fn leaderboard_iter_pages_and_envelope() {
    let b = LeaderboardResource::new().iter().page_size(50);
    let mut walk = b.walk();
    assert_eq!(walk.next_page(), Some(1));
    assert_eq!(b.items_field(), "entries");
    let r = b.page_request(2);
    assert_eq!(r.path, "/leaderboard");
    assert_eq!(query(&r), vec![("page", "2"), ("pageSize", "50")]);
    // The leaderboard reports `totalPages`: a total of 1 ends the walk.
    let _ = walk.record::<u8>(Ok(pixiechess_client::pagination::PageData {
        total_pages: Some(1),
        items: Ok(vec![1]),
    }));
    assert!(walk.is_finished());
}

#[test]
fn points_request_uses_page_param() {
    let r = LeaderboardResource::new().points().page(3).request();
    assert_eq!(r.path, "/points-leaderboard");
    assert_eq!(query(&r), vec![("page", "3")]);
    let it = LeaderboardResource::new().points_iter();
    assert_eq!(query(&it.page_request(1)), vec![("page", "1")]);
    assert_eq!(it.items_field(), "entries");
}

#[test]
fn users_get_request_path() {
    let r = UsersResource::new().get("iron-pawn").request();
    assert_eq!(r.path, "/user/iron-pawn");
    assert!(r.query.is_empty());
}

#[test]
fn match_history_request_with_page_and_limit() {
    let r = UsersResource::new().match_history("0xabc").page(2).limit(25).request();
    assert_eq!(r.path, "/user/match-history/0xabc");
    assert_eq!(query(&r), vec![("page", "2"), ("limit", "25")]);
}

#[test]
fn match_history_request_defaults_page_1_limit_15() {
    let r = UsersResource::new().match_history("0xabc").request();
    assert_eq!(query(&r), vec![("page", "1"), ("limit", "15")]);
}

#[test]
fn match_history_iter_walk_ignores_totals() {
    let b = UsersResource::new().match_history_iter("0xabc");
    assert_eq!(b.items_field(), "matches");
    assert_eq!(query(&b.page_request(3)), vec![("page", "3"), ("limit", "15")]);
    let mut walk = b.walk();
    let _ = walk.record::<u8>(Ok(pixiechess_client::pagination::PageData {
        total_pages: Some(1),
        items: Ok(vec![1]),
    }));
    assert_eq!(walk.next_page(), Some(2));
}

#[test]
fn games_request_paths() {
    let g = GamesResource::new();
    assert_eq!(g.get("g1").request().path, "/game/g1");
    let r = g.rating_change("g1", "0xabc").request();
    assert_eq!(r.path, "/game/g1/rating/0xabc");
    assert!(r.query.is_empty());
}

#[test]
fn pieces_get_request_with_page_limit_grouped() {
    let r = PiecesResource::new().get("0xabc").page(2).limit(10).grouped(true).request();
    assert_eq!(r.path, "/pieces/0xabc");
    assert_eq!(query(&r), vec![("page", "2"), ("limit", "10"), ("grouped", "true")]);
}

#[test]
fn pieces_iter_and_burned_requests() {
    let p = PiecesResource::new();
    let it = p.iter("0xabc").limit(5);
    assert_eq!(it.items_field(), "pieces");
    assert_eq!(query(&it.page_request(2)), vec![("page", "2"), ("limit", "5")]);
    let r = p.burned("0xabc").request();
    assert_eq!(r.path, "/burned-pieces/0xabc");
    assert_eq!(query(&r), vec![("page", "1")]);
    let bi = p.burned_iter("0xabc");
    assert_eq!(bi.page_request(1).path, "/burned-pieces/0xabc");
    assert_eq!(bi.items_field(), "pieces");
}

#[test]
fn auctions_request_paths_and_params() {
    let a = AuctionsResource::new();
    assert_eq!(a.get("0xabc").request().path, "/auction/0xabc");
    assert_eq!(a.active().request().path, "/auctions/active");
    let past = a.past().page(2).page_size(10).request();
    assert_eq!(past.path, "/auctions/past");
    assert_eq!(query(&past), vec![("page", "2"), ("pageSize", "10")]);
    assert_eq!(query(&a.past().request()), vec![("page", "1")]);
    assert_eq!(a.piece_info("marauder").request().path, "/auctions/piece/marauder");
    let pdv = a.piece_daily_volume("marauder").request();
    assert_eq!(pdv.path, "/auctions/piece/marauder/daily-volume");
    assert_eq!(query(&pdv), vec![("range", "30d")]);
    let dv = a.daily_volume().range("30d").request();
    assert_eq!(dv.path, "/auctions/daily-volume");
    assert_eq!(query(&dv), vec![("range", "30d")]);
    assert_eq!(query(&a.daily_volume().request()), vec![("range", "7d")]);
    assert_eq!(a.today_summary().request().path, "/auctions/today-summary");
    assert_eq!(
        a.last_completed_day_summary().request().path,
        "/auctions/last-completed-day-summary"
    );
    assert_eq!(a.prices().request().path, "/prices");
}

#[test]
fn tournaments_list_default_params() {
    let r = TournamentsResource::new().list().request();
    assert_eq!(r.path, "/tournament/list");
    assert_eq!(query(&r), vec![("limit", "10"), ("offset", "0"), ("pinned", "false")]);
}

#[test]
fn tournaments_list_optional_filters() {
    let r = TournamentsResource::new()
        .list()
        .date_filter("today")
        .tz_offset(-300)
        .active(true)
        .request();
    assert_eq!(
        query(&r),
        vec![
            ("limit", "10"),
            ("offset", "0"),
            ("pinned", "false"),
            ("dateFilter", "today"),
            ("tzOffset", "-300"),
            ("active", "true"),
        ]
    );
    let r2 = TournamentsResource::new().list().limit(3).offset(6).pinned(true).active(false).request();
    assert_eq!(
        query(&r2),
        vec![("limit", "3"), ("offset", "6"), ("pinned", "true"), ("active", "false")]
    );
    let r3 = TournamentsResource::new().list().tz_offset(i32::MIN).request();
    assert_eq!(query(&r3)[3], ("tzOffset", "-2147483648"));
}

#[test]
fn tournaments_details_and_waitlist_paths() {
    let t = TournamentsResource::new();
    assert_eq!(t.details("t-1").request().path, "/tournament/details/t-1");
    assert_eq!(t.waitlist("t-1").request().path, "/tournament/waitlist/t-1");
}

#[test]
fn misc_request_paths() {
    let m = MiscResource::new();
    assert_eq!(m.config().request().path, "/config/public");
    assert_eq!(m.eth_usd_price().request().path, "/eth-usd-price");
    assert_eq!(m.vault_balance().request().path, "/vault-balance");
}

#[test]
fn live_feed_request_passes_all_filters() {
    let r = MiscResource::new()
        .live_feed()
        .since("2026-05-12T00:00:00Z")
        .event_type("game_finished")
        .limit(5)
        .request();
    assert_eq!(r.path, "/live-feed");
    assert_eq!(
        query(&r),
        vec![("since", "2026-05-12T00:00:00Z"), ("type", "game_finished"), ("limit", "5")]
    );
}

#[test]
fn live_feed_request_without_filters_has_no_params() {
    let r = MiscResource::new().live_feed().request();
    assert_eq!(r.path, "/live-feed");
    assert!(r.query.is_empty());
}

#[test]
fn ranks_masters_request_path() {
    let r = RanksResource::new().masters().request();
    assert_eq!(r.path, "/ranks/masters");
    assert!(r.query.is_empty());
}
