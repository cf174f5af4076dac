use pixiechess_client::pagination::{PageData, PageWalk};
use pixiechess_client::ClientError;
use serde_json::Value;

fn parse_items(v: &Value) -> Result<Vec<i64>, ClientError> {
    let arr = v
        .get("items")
        .and_then(|x| x.as_array())
        .cloned()
        .unwrap_or_default();
    arr.into_iter()
        .map(|x| {
            x.as_i64().ok_or_else(|| ClientError::Api {
                status: 0,
                message: "bad item".into(),
            })
        })
        .collect()
}

/// Drives a walk the way the client's page stream does: fetch the page the
/// walk names, hand the outcome back, and collect what it yields.
fn collect_walk<F>(tracks_total: bool, mut fetch: F) -> (Vec<Result<i64, ClientError>>, Vec<u32>)
where
    F: FnMut(u32) -> Result<Value, ClientError>,
{
    let mut walk = PageWalk::new(tracks_total);
    let mut out = Vec::new();
    let mut requested = Vec::new();
    while let Some(page) = walk.next_page() {
        requested.push(page);
        let fetched = fetch(page).map(|data| PageData {
            total_pages: data.get("totalPages").and_then(Value::as_u64),
            items: parse_items(&data),
        });
        out.extend(walk.record(fetched));
    }
    assert!(walk.is_finished());
    (out, requested)
}

fn json(text: &str) -> Value {
    serde_json::from_str(text).unwrap()
}

#[test]
fn empty_first_page_yields_nothing() {
    let (collected, _) = collect_walk(false, |_page| Ok(json(r#"{"items": []}"#)));
    assert!(collected.is_empty());
}

#[test]
fn single_page_yields_all_items_then_stops() {
    let (collected, _) = collect_walk(false, |page| {
        if page == 1 {
            Ok(json(r#"{"items": [1, 2, 3]}"#))
        } else {
            Ok(json(r#"{"items": []}"#))
        }
    });
    let got: Vec<i64> = collected.into_iter().map(Result::unwrap).collect();
    assert_eq!(got, vec![1, 2, 3]);
}

#[test]
fn stops_on_empty_page_when_no_total_key() {
    let (collected, _) = collect_walk(false, |page| match page {
        1 => Ok(json(r#"{"items": [10, 20]}"#)),
        2 => Ok(json(r#"{"items": [30]}"#)),
        _ => Ok(json(r#"{"items": []}"#)),
    });
    let got: Vec<i64> = collected.into_iter().map(Result::unwrap).collect();
    assert_eq!(got, vec![10, 20, 30]);
}

#[test]
fn stops_on_total_pages_without_extra_fetch() {
    let mut fetch_count = 0u32;
    let (collected, _) = collect_walk(true, |page| {
        fetch_count += 1;
        match page {
            1 => Ok(json(r#"{"items": [1, 2], "totalPages": 2}"#)),
            2 => Ok(json(r#"{"items": [3, 4], "totalPages": 2}"#)),
            _ => Ok(json(r#"{"items": []}"#)),
        }
    });
    let got: Vec<i64> = collected.into_iter().map(Result::unwrap).collect();
    assert_eq!(got, vec![1, 2, 3, 4]);
    // Exactly two fetches — no probe to page 3.
    assert_eq!(fetch_count, 2);
}

#[test]
fn parse_error_propagates_as_err() {
    let (collected, _) = collect_walk(false, |_page| Ok(json(r#"{"items": ["not a number"]}"#)));
    assert!(matches!(collected.first(), Some(Err(_))));
}

#[test]
fn pages_are_requested_in_order_from_one() {
    let (_, requested) = collect_walk(false, |page| {
        if page <= 4 {
            Ok(json(r#"{"items": [7]}"#))
        } else {
            Ok(json(r#"{"items": []}"#))
        }
    });
    assert_eq!(requested, vec![1, 2, 3, 4, 5]);
}

#[test]
fn total_of_zero_stops_after_the_first_page() {
    let (collected, requested) = collect_walk(true, |_page| Ok(json(r#"{"items": [5], "totalPages": 0}"#)));
    assert_eq!(requested, vec![1]);
    assert_eq!(collected.len(), 1);
}

#[test]
fn total_is_taken_from_the_first_report_only() {
    let (collected, requested) = collect_walk(true, |page| match page {
        1 => Ok(json(r#"{"items": [1], "totalPages": 3}"#)),
        2 => Ok(json(r#"{"items": [2], "totalPages": 9}"#)),
        3 => Ok(json(r#"{"items": [3], "totalPages": 9}"#)),
        _ => Ok(json(r#"{"items": [4]}"#)),
    });
    assert_eq!(requested, vec![1, 2, 3]);
    let got: Vec<i64> = collected.into_iter().map(Result::unwrap).collect();
    assert_eq!(got, vec![1, 2, 3]);
}

#[test]
fn total_is_ignored_when_the_endpoint_does_not_report_one() {
    let (_, requested) = collect_walk(false, |page| {
        if page <= 3 {
            Ok(json(r#"{"items": [1], "totalPages": 1}"#))
        } else {
            Ok(json(r#"{"items": []}"#))
        }
    });
    assert_eq!(requested, vec![1, 2, 3, 4]);
}

#[test]
fn total_too_large_for_u32_is_not_kept() {
    let (_, requested) = collect_walk(true, |page| {
        if page <= 2 {
            Ok(json(r#"{"items": [1], "totalPages": 4294967296}"#))
        } else {
            Ok(json(r#"{"items": []}"#))
        }
    });
    assert_eq!(requested, vec![1, 2, 3]);
}

#[test]
fn fetch_error_ends_the_walk_with_that_error() {
    let (collected, requested) = collect_walk(false, |page| {
        if page == 1 {
            Ok(json(r#"{"items": [1, 2]}"#))
        } else {
            Err(ClientError::NotFound("gone".into()))
        }
    });
    assert_eq!(requested, vec![1, 2]);
    assert_eq!(collected.len(), 3);
    assert!(matches!(&collected[2], Err(ClientError::NotFound(b)) if b == "gone"));
}

#[test]
fn finished_walk_names_no_page() {
    let mut walk = PageWalk::new(true);
    assert_eq!(walk.next_page(), Some(1));
    let out = walk.record::<i64>(Ok(PageData { total_pages: Some(1), items: Ok(vec![9]) }));
    assert_eq!(out.len(), 1);
    assert!(walk.is_finished());
    assert_eq!(walk.next_page(), None);
}
