use wayle::weather::parse::{
    current_hour_index_at, find_current_hour_index, hourly_end, raw_value, parse_date, parse_iso_datetime,
    parse_time_from_iso, DateTimeUtc, WeatherError, PROVIDER,
};

fn to_chrono(dt: &DateTimeUtc) -> chrono::DateTime<chrono::Utc> {
    chrono::NaiveDate::from_ymd_opt(dt.year, dt.month, dt.day)
        .unwrap()
        .and_hms_nano_opt(dt.hour, dt.minute, dt.second, dt.nanosecond)
        .unwrap()
        .and_utc()
}

fn at(year: i32, month: u32, day: u32, hour: u32, minute: u32) -> DateTimeUtc {
    DateTimeUtc { year, month, day, hour, minute, second: 0, nanosecond: 0 }
}

#[test]
fn parse_iso_datetime_valid() {
    let result = parse_iso_datetime("2024-01-15T14:30");
    assert!(result.is_ok());
    let dt = result.unwrap();
    assert_eq!(to_chrono(&dt).format("%Y-%m-%d %H:%M").to_string(), "2024-01-15 14:30");
}

#[test]
fn parse_iso_datetime_invalid() {
    let result = parse_iso_datetime("not-a-date");
    assert!(result.is_err());
}

#[test]
fn parse_date_valid() {
    let result = parse_date("2024-01-15");
    assert!(result.is_ok());
    let d = result.unwrap();
    let chrono_date = chrono::NaiveDate::from_ymd_opt(d.year, d.month, d.day).unwrap();
    assert_eq!(chrono_date.to_string(), "2024-01-15");
}

#[test]
fn parse_time_from_iso_valid() {
    let result = parse_time_from_iso("2024-01-15T14:30");
    assert!(result.is_ok());
    let t = result.unwrap();
    let chrono_time =
        chrono::NaiveTime::from_hms_nano_opt(t.hour, t.minute, t.second, t.nanosecond).unwrap();
    assert_eq!(chrono_time.to_string(), "14:30:00");
}

#[test]
fn parse_iso_datetime_reads_every_field() {
    let dt = parse_iso_datetime("1999-12-31T23:59").unwrap();
    assert_eq!(dt, at(1999, 12, 31, 23, 59));
}

#[test]
fn parse_errors_name_the_provider() {
    for result in [
        parse_iso_datetime("2024-13-01T00:00").map(|_| ()),
        parse_date("2024-02-30").map(|_| ()),
        parse_time_from_iso("2024-01-15").map(|_| ()),
    ] {
        match result {
            Err(WeatherError::Parse { provider, message }) => {
                assert_eq!(provider, PROVIDER);
                assert!(!message.is_empty());
            }
            Ok(()) => panic!("expected a parse error"),
        }
    }
}

#[test]
fn current_hour_is_the_hour_before_the_first_future_one() {
    let now = at(2024, 1, 15, 14, 10);
    let parsed = vec![
        Some(at(2024, 1, 15, 12, 0)),
        Some(at(2024, 1, 15, 13, 0)),
        Some(at(2024, 1, 15, 14, 0)),
        Some(at(2024, 1, 15, 15, 0)),
        Some(at(2024, 1, 15, 16, 0)),
    ];
    assert_eq!(current_hour_index_at(&parsed, &now), 2);
}

#[test]
fn current_hour_edges() {
    let now = at(2024, 1, 15, 14, 0);
    // the first entry is already in the future
    assert_eq!(current_hour_index_at(&vec![Some(at(2024, 1, 15, 15, 0))], &now), 0);
    // nothing in the future
    assert_eq!(current_hour_index_at(&vec![Some(at(2024, 1, 15, 13, 0)), Some(now)], &now), 0);
    // empty series
    assert_eq!(current_hour_index_at(&vec![], &now), 0);
    // entries that did not parse are skipped
    let parsed = vec![Some(at(2024, 1, 15, 13, 0)), None, None, Some(at(2024, 1, 15, 15, 0))];
    assert_eq!(current_hour_index_at(&parsed, &now), 2);
    // a later nanosecond counts as later
    let mut just_after = now;
    just_after.nanosecond = 1;
    assert_eq!(current_hour_index_at(&vec![Some(now), Some(just_after)], &now), 0);
}

#[test]
fn find_current_hour_index_by_the_clock() {
    let past_and_future = vec![
        "2000-01-01T00:00".to_string(),
        "2000-01-01T01:00".to_string(),
        "garbage".to_string(),
        "9999-01-01T00:00".to_string(),
    ];
    assert_eq!(find_current_hour_index(&past_and_future), 2);
    let all_past = vec!["2000-01-01T00:00".to_string(), "2001-01-01T00:00".to_string()];
    assert_eq!(find_current_hour_index(&all_past), 0);
}

#[test]
fn missing_reading_is_a_parse_error() {
    let temps = [12.5f64, 13.0, 14.25];
    assert_eq!(raw_value(&temps, 1), Ok(13.0));
    assert_eq!(raw_value(&temps, 2), Ok(14.25));
    assert_eq!(
        raw_value(&temps, 3),
        Err(WeatherError::Parse { provider: "open-meteo".to_string(), message: "missing data".to_string() })
    );
    assert!(raw_value::<f64>(&[], 0).is_err());
}

#[test]
fn hourly_window_stops_at_the_series_end() {
    assert_eq!(hourly_end(2, 5, 24), 7);
    assert_eq!(hourly_end(20, 5, 24), 24);
    assert_eq!(hourly_end(0, 0, 24), 0);
    assert_eq!(hourly_end(3, 10, 0), 0);
}
