use chrono::Datelike;
use pixiechess_client::clock::{current_year, unix_timestamp};
use pixiechess_client::models::auctions::current_year_md;
use pixiechess_client::models::auctions::md_date::{deserialize_opt, month_day_in_year, parse_month_day};
use pixiechess_client::models::common::date_dict;
use pixiechess_client::models::{CalendarDate, DateTextError};
use serde_json::Value;
use std::time::{Duration, UNIX_EPOCH};

/// Reads a `{year, month, day}` object the way the decoder hands it over.
fn ymd(v: &Value) -> (i32, u32, u32) {
    (
        v["year"].as_i64().unwrap() as i32,
        v["month"].as_u64().unwrap() as u32,
        v["day"].as_u64().unwrap() as u32,
    )
}

fn date_of(raw: &str, field: &str) -> Result<CalendarDate, DateTextError> {
    let v: Value = serde_json::from_str(raw).unwrap();
    let (y, m, d) = ymd(&v[field]);
    date_dict::deserialize(y, m, d)
}

fn naive(d: CalendarDate) -> chrono::NaiveDate {
    chrono::NaiveDate::from_ymd_opt(d.year(), d.month(), d.day()).unwrap()
}

#[test]
fn date_dict_parses_valid_ymd() {
    let wd = date_of(r#"{"date": {"year": 2026, "month": 5, "day": 13}}"#, "date").unwrap();
    assert_eq!(naive(wd), chrono::NaiveDate::from_ymd_opt(2026, 5, 13).unwrap());
    assert_eq!(wd, CalendarDate::from_ymd_opt(2026, 5, 13).unwrap());
}

#[test]
fn date_dict_rejects_invalid_ymd() {
    let res = date_of(r#"{"date": {"year": 2026, "month": 13, "day": 99}}"#, "date");
    assert!(res.is_err());
    assert_eq!(res, Err(DateTextError::InvalidDate));
    assert_eq!(DateTextError::InvalidDate.message(), "invalid date");
}

#[test]
fn daily_volume_decodes_date_dict() {
    let d = date_of(
        r#"{"date": {"year": 2026, "month": 5, "day": 13}, "piecesSold": 12, "totalEth": 1.5}"#,
        "date",
    )
    .unwrap();
    assert_eq!(naive(d), chrono::NaiveDate::from_ymd_opt(2026, 5, 13).unwrap());
}

#[test]
fn past_day_bucket_accepts_date_under_id_field() {
    let d = date_of(r#"{"_id": {"year": 2026, "month": 5, "day": 13}, "auctions": []}"#, "_id").unwrap();
    assert_eq!(naive(d), chrono::NaiveDate::from_ymd_opt(2026, 5, 13).unwrap());
}

#[test]
fn past_day_bucket_accepts_date_under_date_field() {
    let d = date_of(r#"{"date": {"year": 2026, "month": 5, "day": 14}, "auctions": []}"#, "date").unwrap();
    assert_eq!(naive(d), chrono::NaiveDate::from_ymd_opt(2026, 5, 14).unwrap());
}

#[test]
fn completed_day_summary_uses_date_dict() {
    let d = date_of(
        r#"{"date": {"year": 2026, "month": 5, "day": 12}, "totalEth": 2.5, "piecesSold": 100, "ethChangePercent": -5.3}"#,
        "date",
    )
    .unwrap();
    assert_eq!(naive(d), chrono::NaiveDate::from_ymd_opt(2026, 5, 12).unwrap());
}

#[test]
fn past_auction_decodes_end_date_from_md_string() {
    let d = deserialize_opt(Some("5/13")).unwrap().unwrap();
    let expected = current_year_md(5, 13).unwrap();
    assert_eq!(d, expected);
}

#[test]
fn past_auction_handles_missing_end_date() {
    assert_eq!(deserialize_opt(None), Ok(None));
}

#[test]
fn md_date_uses_the_current_utc_year() {
    let d = deserialize_opt(Some("05/13")).unwrap().unwrap();
    assert_eq!(d.year(), chrono::Utc::now().year());
    assert_eq!((d.month(), d.day()), (5, 13));
}

#[test]
fn md_date_errors() {
    assert_eq!(deserialize_opt(Some("x/13")), Err(DateTextError::InvalidMonth));
    assert_eq!(deserialize_opt(Some("5")), Err(DateTextError::InvalidDay));
    assert_eq!(deserialize_opt(Some("5/")), Err(DateTextError::InvalidDay));
    assert_eq!(deserialize_opt(Some("5/1/2")), Err(DateTextError::InvalidDay));
    assert_eq!(deserialize_opt(Some("")), Err(DateTextError::InvalidMonth));
    assert_eq!(deserialize_opt(Some("13/01")), Err(DateTextError::InvalidDate));
    assert_eq!(deserialize_opt(Some("2/30")), Err(DateTextError::InvalidDate));
    assert_eq!(DateTextError::InvalidMonth.message(), "invalid month");
    assert_eq!(DateTextError::InvalidDay.message(), "invalid day");
    assert_eq!(DateTextError::NoCurrentYear.message(), "system clock out of range");
}

#[test]
fn parse_month_day_splits_at_first_slash() {
    assert_eq!(parse_month_day("12/31"), Ok((12, 31)));
    assert_eq!(parse_month_day("+1/+2"), Ok((1, 2)));
    assert_eq!(parse_month_day("0/0"), Ok((0, 0)));
    assert_eq!(parse_month_day(" 1/2"), Err(DateTextError::InvalidMonth));
    assert_eq!(parse_month_day("1/-2"), Err(DateTextError::InvalidDay));
}

#[test]
fn month_day_in_year_handles_leap_days() {
    assert_eq!(month_day_in_year(2024, "2/29").map(naive), Ok(chrono::NaiveDate::from_ymd_opt(2024, 2, 29).unwrap()));
    assert_eq!(month_day_in_year(2023, "2/29"), Err(DateTextError::InvalidDate));
    assert_eq!(month_day_in_year(1900, "2/29"), Err(DateTextError::InvalidDate));
    assert!(month_day_in_year(2000, "2/29").is_ok());
}

#[test]
fn calendar_dates_follow_chrono() {
    assert!(CalendarDate::from_ymd_opt(2026, 2, 29).is_none());
    assert!(CalendarDate::from_ymd_opt(2028, 2, 29).is_some());
    assert!(CalendarDate::from_ymd_opt(2026, 4, 31).is_none());
    assert!(CalendarDate::from_ymd_opt(2026, 0, 1).is_none());
    assert!(CalendarDate::from_ymd_opt(2026, 1, 0).is_none());
    assert!(CalendarDate::from_ymd_opt(262142, 12, 31).is_some());
    assert!(CalendarDate::from_ymd_opt(262143, 1, 1).is_none());
    assert!(CalendarDate::from_ymd_opt(-262143, 1, 1).is_some());
    assert!(CalendarDate::from_ymd_opt(-262144, 12, 31).is_none());
    let d = CalendarDate::from_ymd_opt(-1, 3, 1).unwrap();
    assert_eq!((d.year(), d.month(), d.day()), (-1, 3, 1));
}

#[test]
fn current_year_md_rejects_impossible_days() {
    assert!(current_year_md(2, 30).is_none());
    assert!(current_year_md(13, 1).is_none());
    let d = current_year_md(12, 31).unwrap();
    assert_eq!((d.month(), d.day()), (12, 31));
}

#[test]
fn days_of_every_year_always_decode() {
    for text in ["1/1", "2/28", "4/30", "12/31"] {
        assert!(matches!(deserialize_opt(Some(text)), Ok(Some(_))), "{text}");
    }
}

#[test]
fn unix_timestamps_follow_chrono() {
    assert_eq!(unix_timestamp(Ok((5, 7))), Some((5, 7)));
    assert_eq!(unix_timestamp(Err((1, 0))), Some((-1, 0)));
    assert_eq!(unix_timestamp(Err((1, 250_000_000))), Some((-2, 750_000_000)));
    assert_eq!(unix_timestamp(Ok((u64::MAX, 0))), None);
    assert_eq!(unix_timestamp(Err((u64::MAX, 1))), None);
    let before = UNIX_EPOCH - Duration::new(1, 250_000_000);
    let expected = chrono::DateTime::<chrono::Utc>::from(before);
    let (s, n) = unix_timestamp(Err((1, 250_000_000))).unwrap();
    assert_eq!((s, n), (expected.timestamp(), expected.timestamp_subsec_nanos()));
}

#[test]
fn current_year_is_the_utc_year() {
    assert_eq!(current_year(), Some(chrono::Utc::now().year()));
}
