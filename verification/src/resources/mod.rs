//! Endpoint groups. Each resource hands out builders; a builder describes
//! the request it stands for (path and query parameters), which the
//! transport sends.

use vstd::prelude::*;

use crate::http::{pairs_text, Request};
use crate::text::decimal_text;

pub mod auctions;
pub mod games;
pub mod leaderboard;
pub mod misc;
pub mod pieces;
pub mod ranks;
pub mod tournaments;
pub mod users;

verus! {

/// `[(name, value)]` when a value is set, nothing otherwise.
pub open spec fn opt_param(name: Seq<char>, value: Option<Seq<char>>) -> Seq<(Seq<char>, Seq<char>)> {
    match value {
        Some(v) => seq![(name, v)],
        None => Seq::empty(),
    }
}

/// The decimal text of an optional number.
pub open spec fn opt_decimal(value: Option<u32>) -> Option<Seq<char>> {
    match value {
        Some(n) => Some(decimal_text(n as nat)),
        None => None,
    }
}

/// The text of an optional string.
pub open spec fn opt_text(value: Option<String>) -> Option<Seq<char>> {
    match value {
        Some(s) => Some(s@),
        None => None,
    }
}

/// Whether `r` is the request for `path` with query parameters `query`.
pub open spec fn is_request(r: Request, path: Seq<char>, query: Seq<(Seq<char>, Seq<char>)>) -> bool {
    r.path@ == path && pairs_text(r.query@) == query
}

/// Appends one query parameter.
pub fn push_param(params: &mut Vec<(&'static str, String)>, name: &'static str, value: String)
    ensures
        pairs_text(final(params)@) == pairs_text(old(params)@).push((name@, value@)),
{
    let ghost before = params@;
    params.push((name, value));
    assert(pairs_text(params@) =~= pairs_text(before).push((name@, value@)));
}

/// `prefix` followed by `segment`, as `format!("{prefix}{segment}")`.
pub fn join_path(prefix: &str, segment: &str) -> (s: String)
    ensures
        s@ == prefix@ + segment@,
{
    String::from_str(prefix).concat(segment)
}

/// The request for a fixed path without query parameters.
pub fn fixed_request(path: &str) -> (r: Request)
    ensures
        is_request(r, path@, Seq::empty()),
{
    let query: Vec<(&'static str, String)> = Vec::new();
    assert(pairs_text(query@) =~= Seq::empty());
    Request { path: String::from_str(path), query }
}

/// The request for `path` without query parameters.
pub fn path_request(path: String) -> (r: Request)
    ensures
        is_request(r, path@, Seq::empty()),
{
    let query: Vec<(&'static str, String)> = Vec::new();
    assert(pairs_text(query@) =~= Seq::empty());
    Request { path, query }
}

/// `1` when `b` holds, else `0`: how many parameters an optional setting
/// adds.
pub open spec fn count_if(b: bool) -> int {
    if b {
        1
    } else {
        0
    }
}

} // verus!
