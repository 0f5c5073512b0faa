//! Timestamps of the Open-Meteo API and the index of the current hour in its
//! hourly series.
//!
//! Parsing goes through chrono; its results are named (`chrono_naive_datetime`,
//! `chrono_naive_date`) and everything built on them is stated over those names.
use chrono::{Datelike, Timelike};
use vstd::prelude::*;

verus! {

/// Name of this provider in error messages.
pub const PROVIDER: &'static str = "open-meteo";

/// A UTC date and time, as its calendar fields.
#[derive(Debug, Clone, Copy, PartialEq, Eq)]
pub struct DateTimeUtc {
    pub year: i32,
    pub month: u32,
    pub day: u32,
    pub hour: u32,
    pub minute: u32,
    pub second: u32,
    pub nanosecond: u32,
}

/// A calendar date.
#[derive(Debug, Clone, Copy, PartialEq, Eq)]
pub struct CalendarDate {
    pub year: i32,
    pub month: u32,
    pub day: u32,
}

/// A time of day.
#[derive(Debug, Clone, Copy, PartialEq, Eq)]
pub struct TimeOfDay {
    pub hour: u32,
    pub minute: u32,
    pub second: u32,
    pub nanosecond: u32,
}

/// Errors of the weather provider.
#[derive(Debug, Clone, PartialEq, Eq)]
pub enum WeatherError {
    /// Data from `provider` could not be read; `message` says why.
    Parse { provider: String, message: String },
}

/// The fields (year, month, day, hour, minute, second, nanosecond) of the date-time that
/// `chrono::NaiveDateTime::parse_from_str(s, fmt)` reads, or `None` where it fails.
pub uninterp spec fn chrono_naive_datetime(s: Seq<char>, fmt: Seq<char>) -> Option<(i32, u32, u32, u32, u32, u32, u32)>;

/// The fields (year, month, day) of the date that `chrono::NaiveDate::parse_from_str(s, fmt)`
/// reads, or `None` where it fails.
pub uninterp spec fn chrono_naive_date(s: Seq<char>, fmt: Seq<char>) -> Option<(i32, u32, u32)>;

/// Calls `chrono::NaiveDateTime::parse_from_str(s, fmt)` and reads the fields of the
/// result. Claims only that success and the fields are `chrono_naive_datetime(s, fmt)`;
/// the text of chrono's error is not stated.
#[verifier::external_body]
fn naive_datetime_from_str(s: &str, fmt: &str) -> (res: Result<(i32, u32, u32, u32, u32, u32, u32), String>)
    ensures
        match chrono_naive_datetime(s@, fmt@) {
            Some(t) => res == Ok::<(i32, u32, u32, u32, u32, u32, u32), String>(t),
            None => res is Err,
        },
{
    match chrono::NaiveDateTime::parse_from_str(s, fmt) {
        Ok(dt) => Ok((dt.year(), dt.month(), dt.day(), dt.hour(), dt.minute(), dt.second(), dt.nanosecond())),
        Err(e) => Err(e.to_string()),
    }
}

/// Calls `chrono::NaiveDate::parse_from_str(s, fmt)` and reads the fields of the
/// result. Claims only that success and the fields are `chrono_naive_date(s, fmt)`;
/// the text of chrono's error is not stated.
#[verifier::external_body]
fn naive_date_from_str(s: &str, fmt: &str) -> (res: Result<(i32, u32, u32), String>)
    ensures
        match chrono_naive_date(s@, fmt@) {
            Some(t) => res == Ok::<(i32, u32, u32), String>(t),
            None => res is Err,
        },
{
    match chrono::NaiveDate::parse_from_str(s, fmt) {
        Ok(d) => Ok((d.year(), d.month(), d.day())),
        Err(e) => Err(e.to_string()),
    }
}

/// `std::time::SystemTime`, carried through unchanged.
#[verifier::external_type_specification]
#[verifier::external_body]
pub struct ExSystemTime(std::time::SystemTime);

/// The fields (year, month, day, hour, minute, second, nanosecond) of what
/// `chrono::DateTime::<Utc>::from_timestamp(secs, nanos)` returns, or `None` where it
/// returns `None` (seconds out of chrono's range, or an invalid nanosecond).
pub uninterp spec fn chrono_utc_from_timestamp(secs: i64, nanos: u32) -> Option<(i32, u32, u32, u32, u32, u32, u32)>;

/// Calls `std::time::SystemTime::now()`. Nothing is claimed of the result: it is the clock.
#[verifier::external_body]
fn system_now() -> (res: std::time::SystemTime) {
    std::time::SystemTime::now()
}

/// Calls `SystemTime::duration_since(UNIX_EPOCH)`, which returns an error (here `None`)
/// where `t` lies before the epoch. Nothing more is claimed: the value is the clock's.
#[verifier::external_body]
fn since_unix_epoch(t: std::time::SystemTime) -> (res: Option<std::time::Duration>) {
    match t.duration_since(std::time::UNIX_EPOCH) {
        Ok(d) => Some(d),
        Err(_) => None,
    }
}

/// Calls `Duration::as_secs`: the whole seconds of `d`.
#[verifier::external_body]
fn duration_secs(d: std::time::Duration) -> (res: u64) {
    d.as_secs()
}

/// Calls `Duration::subsec_nanos`, which its documentation says is below one billion.
#[verifier::external_body]
fn duration_subsec_nanos(d: std::time::Duration) -> (res: u32)
    ensures
        res < 1_000_000_000,
{
    d.subsec_nanos()
}

/// Calls `chrono::DateTime::<Utc>::from_timestamp(secs, nanos)`, which does not panic,
/// and reads the fields of the result. Claims that the result is
/// `chrono_utc_from_timestamp(secs, nanos)`, and, as its documentation says (seconds
/// counted from January 1, 1970 0:00:00 UTC), that 0 seconds is that instant.
#[verifier::external_body]
fn utc_from_timestamp(secs: i64, nanos: u32) -> (res: Option<DateTimeUtc>)
    ensures
        res == match chrono_utc_from_timestamp(secs, nanos) {
            Some(t) => Some(datetime_of(t)),
            None => None,
        },
        secs == 0 && nanos == 0 ==> res == Some(unix_epoch()),
{
    match chrono::DateTime::<chrono::Utc>::from_timestamp(secs, nanos) {
        Some(now) => Some(DateTimeUtc {
            year: now.year(),
            month: now.month(),
            day: now.day(),
            hour: now.hour(),
            minute: now.minute(),
            second: now.second(),
            nanosecond: now.nanosecond(),
        }),
        None => None,
    }
}

/// January 1, 1970 0:00:00 UTC.
pub open spec fn unix_epoch() -> DateTimeUtc {
    DateTimeUtc { year: 1970, month: 1, day: 1, hour: 0, minute: 0, second: 0, nanosecond: 0 }
}

/// `now` is what chrono gives for a reading of `secs` seconds and `nanos` nanoseconds after
/// the Unix epoch (a whole number of seconds, then less than one second).
pub open spec fn reads_as(secs: i64, nanos: u32, now: DateTimeUtc) -> bool {
    &&& 0 <= secs
    &&& nanos < 1_000_000_000
    &&& chrono_utc_from_timestamp(secs, nanos) matches Some(t)
    &&& datetime_of(t) == now
}

/// `now` is a reading of the clock as chrono gives it: some time since the Unix epoch.
pub open spec fn is_clock_reading(now: DateTimeUtc) -> bool {
    exists|secs: i64, nanos: u32| #[trigger] reads_as(secs, nanos, now)
}

/// The clock's reading as a UTC date-time, the time since the Unix epoch read by chrono.
/// A system clock that chrono cannot read (before the epoch, or past chrono's range)
/// reads as the epoch itself.
fn utc_now() -> (res: DateTimeUtc)
    ensures
        is_clock_reading(res),
{
    let reading = match since_unix_epoch(system_now()) {
        Some(d) => {
            let secs = duration_secs(d);
            let nanos = duration_subsec_nanos(d);
            if secs <= 9_223_372_036_854_775_807u64 {
                let s = secs as i64;
                let r = utc_from_timestamp(s, nanos);
                proof {
                    if let Some(now) = r {
                        assert(reads_as(s, nanos, now));
                    }
                }
                r
            } else {
                None
            }
        },
        None => None,
    };
    match reading {
        Some(now) => now,
        None => {
            let epoch = utc_from_timestamp(0, 0);
            match epoch {
                Some(e) => {
                    assert(reads_as(0, 0, e));
                    e
                },
                None => {
                    assert(false);
                    DateTimeUtc { year: 1970, month: 1, day: 1, hour: 0, minute: 0, second: 0, nanosecond: 0 }
                },
            }
        },
    }
}

/// The format of hourly timestamps, `2024-01-15T14:30`.
pub open spec fn iso_minute_format() -> Seq<char> {
    "%Y-%m-%dT%H:%M"@
}

/// The format of daily dates, `2024-01-15`.
pub open spec fn iso_date_format() -> Seq<char> {
    "%Y-%m-%d"@
}

/// The date-time with the given fields, in UTC.
pub open spec fn datetime_of(t: (i32, u32, u32, u32, u32, u32, u32)) -> DateTimeUtc {
    DateTimeUtc { year: t.0, month: t.1, day: t.2, hour: t.3, minute: t.4, second: t.5, nanosecond: t.6 }
}

/// The timestamp `s` as a UTC date-time, where it parses.
pub open spec fn iso_datetime_spec(s: Seq<char>) -> Option<DateTimeUtc> {
    match chrono_naive_datetime(s, iso_minute_format()) {
        Some(t) => Some(datetime_of(t)),
        None => None,
    }
}

/// The error is a parse error of this provider.
pub open spec fn is_provider_parse_error(e: WeatherError) -> bool {
    e matches WeatherError::Parse { provider, .. } && provider@ == PROVIDER@
}

fn parse_error(message: String) -> (res: WeatherError)
    ensures
        is_provider_parse_error(res),
        res matches WeatherError::Parse { message: m, .. } && m@ == message@,
{
    WeatherError::Parse { provider: String::from_str(PROVIDER), message }
}

/// Reads an hourly timestamp such as `2024-01-15T14:30` as a UTC date-time.
pub fn parse_iso_datetime(s: &str) -> (res: Result<DateTimeUtc, WeatherError>)
    ensures
        match iso_datetime_spec(s@) {
            Some(d) => res == Ok::<DateTimeUtc, WeatherError>(d),
            None => res matches Err(e) && is_provider_parse_error(e),
        },
{
    match naive_datetime_from_str(s, "%Y-%m-%dT%H:%M") {
        Ok(t) => Ok(
            DateTimeUtc {
                year: t.0,
                month: t.1,
                day: t.2,
                hour: t.3,
                minute: t.4,
                second: t.5,
                nanosecond: t.6,
            },
        ),
        Err(message) => Err(parse_error(message)),
    }
}

/// Reads a daily date such as `2024-01-15`.
pub fn parse_date(s: &str) -> (res: Result<CalendarDate, WeatherError>)
    ensures
        match chrono_naive_date(s@, iso_date_format()) {
            Some(t) => res == Ok::<CalendarDate, WeatherError>(CalendarDate { year: t.0, month: t.1, day: t.2 }),
            None => res matches Err(e) && is_provider_parse_error(e),
        },
{
    match naive_date_from_str(s, "%Y-%m-%d") {
        Ok(t) => Ok(CalendarDate { year: t.0, month: t.1, day: t.2 }),
        Err(message) => Err(parse_error(message)),
    }
}

/// Reads the time of day of a timestamp such as `2024-01-15T06:42` (sunrise, sunset).
pub fn parse_time_from_iso(s: &str) -> (res: Result<TimeOfDay, WeatherError>)
    ensures
        match chrono_naive_datetime(s@, iso_minute_format()) {
            Some(t) => res == Ok::<TimeOfDay, WeatherError>(
                TimeOfDay { hour: t.3, minute: t.4, second: t.5, nanosecond: t.6 },
            ),
            None => res matches Err(e) && is_provider_parse_error(e),
        },
{
    match naive_datetime_from_str(s, "%Y-%m-%dT%H:%M") {
        Ok(t) => Ok(TimeOfDay { hour: t.3, minute: t.4, second: t.5, nanosecond: t.6 }),
        Err(message) => Err(parse_error(message)),
    }
}

/// `e` is this provider's parse error for an entry missing from a series.
pub open spec fn is_missing_data(e: WeatherError) -> bool {
    e matches WeatherError::Parse { provider, message } && provider@ == PROVIDER@
        && message@ == "missing data"@
}

/// The entry `idx` of an hourly or daily series of readings; an index past the end of
/// the series is a parse error ("missing data").
pub fn raw_value<T: Copy>(values: &[T], idx: usize) -> (res: Result<T, WeatherError>)
    ensures
        idx < values@.len() ==> res == Ok::<T, WeatherError>(values@[idx as int]),
        idx >= values@.len() ==> (res matches Err(e) && is_missing_data(e)),
{
    if idx < values.len() {
        Ok(values[idx])
    } else {
        Err(parse_error(String::from_str("missing data")))
    }
}

/// The end of the hours an hourly forecast of `count` hours covers from the current hour
/// `start`: `start + count`, but no further than the series length `len`.
pub fn hourly_end(start: usize, count: usize, len: usize) -> (end: usize)
    requires
        start + count <= usize::MAX,
    ensures
        end == if start + count < len { start + count } else { len as int },
{
    let end = start + count;
    if end < len {
        end
    } else {
        len
    }
}

/// `a` is strictly later than `b`.
pub open spec fn later_than(a: DateTimeUtc, b: DateTimeUtc) -> bool {
    ||| a.year > b.year
    ||| a.year == b.year && a.month > b.month
    ||| a.year == b.year && a.month == b.month && a.day > b.day
    ||| a.year == b.year && a.month == b.month && a.day == b.day && a.hour > b.hour
    ||| a.year == b.year && a.month == b.month && a.day == b.day && a.hour == b.hour && a.minute > b.minute
    ||| a.year == b.year && a.month == b.month && a.day == b.day && a.hour == b.hour && a.minute == b.minute
        && a.second > b.second
    ||| a.year == b.year && a.month == b.month && a.day == b.day && a.hour == b.hour && a.minute == b.minute
        && a.second == b.second && a.nanosecond > b.nanosecond
}

/// Whether `a` is strictly later than `b`.
pub fn is_later(a: &DateTimeUtc, b: &DateTimeUtc) -> (res: bool)
    ensures
        res == later_than(*a, *b),
{
    if a.year != b.year {
        return a.year > b.year;
    }
    if a.month != b.month {
        return a.month > b.month;
    }
    if a.day != b.day {
        return a.day > b.day;
    }
    if a.hour != b.hour {
        return a.hour > b.hour;
    }
    if a.minute != b.minute {
        return a.minute > b.minute;
    }
    if a.second != b.second {
        return a.second > b.second;
    }
    a.nanosecond > b.nanosecond
}

/// Entry `i` is a timestamp that parsed and lies after `now`.
pub open spec fn is_future(parsed: Seq<Option<DateTimeUtc>>, now: DateTimeUtc, i: int) -> bool {
    &&& 0 <= i < parsed.len()
    &&& parsed[i] matches Some(d) && later_than(d, now)
}

/// The first entry that lies after `now`, if any.
pub open spec fn first_future(parsed: Seq<Option<DateTimeUtc>>, now: DateTimeUtc) -> Option<int> {
    if exists|i: int| is_future(parsed, now, i) {
        Some(choose|i: int| is_future(parsed, now, i) && forall|j: int| 0 <= j < i ==> !is_future(parsed, now, j))
    } else {
        None
    }
}

/// The index of the current hour: the entry just before the first one after `now`
/// (0 if that is the first entry), or 0 when no entry lies after `now`.
pub open spec fn current_hour_spec(parsed: Seq<Option<DateTimeUtc>>, now: DateTimeUtc) -> int {
    match first_future(parsed, now) {
        Some(i) => if i == 0 { 0 } else { i - 1 },
        None => 0,
    }
}

proof fn lemma_first_future(parsed: Seq<Option<DateTimeUtc>>, now: DateTimeUtc, i: int)
    requires
        is_future(parsed, now, i),
        forall|j: int| 0 <= j < i ==> !is_future(parsed, now, j),
    ensures
        first_future(parsed, now) == Some(i),
{
    let w = choose|w: int| is_future(parsed, now, w) && forall|j: int| 0 <= j < w ==> !is_future(parsed, now, j);
    assert(is_future(parsed, now, w) && forall|j: int| 0 <= j < w ==> !is_future(parsed, now, j));
    if w < i {
        assert(!is_future(parsed, now, w));
    } else if w > i {
        assert(!is_future(parsed, now, i));
    }
}

/// The index of the current hour among timestamps already read (`None`: did not parse).
pub fn current_hour_index_at(parsed: &Vec<Option<DateTimeUtc>>, now: &DateTimeUtc) -> (res: usize)
    ensures
        res == current_hour_spec(parsed@, *now),
{
    let mut i: usize = 0;
    while i < parsed.len()
        invariant
            i <= parsed@.len(),
            forall|j: int| 0 <= j < i ==> !is_future(parsed@, *now, j),
        decreases parsed.len() - i,
    {
        match &parsed[i] {
            Some(d) => {
                if is_later(d, now) {
                    proof { lemma_first_future(parsed@, *now, i as int); }
                    return if i == 0 { 0 } else { i - 1 };
                }
            },
            None => {},
        }
        i = i + 1;
    }
    assert(!exists|j: int| is_future(parsed@, *now, j));
    0
}

/// The current hour is an index into the series, or 0 for an empty one.
pub proof fn lemma_current_hour_in_range(parsed: Seq<Option<DateTimeUtc>>, now: DateTimeUtc)
    ensures
        0 <= current_hour_spec(parsed, now),
        parsed.len() == 0 || current_hour_spec(parsed, now) < parsed.len(),
{
    if exists|i: int| is_future(parsed, now, i) {
        let w = choose|i: int| is_future(parsed, now, i);
        lemma_least_future(parsed, now, w);
    }
}

/// The current hour is the entry just before the first timestamp later than `now`:
/// no entry before it is later than `now`; when it is not the first entry, it is itself
/// not later than `now` and the next entry is; when it is the first entry, either no
/// entry is later than `now`, or the first or second one is.
pub proof fn lemma_current_hour_precedes_first_later(parsed: Seq<Option<DateTimeUtc>>, now: DateTimeUtc)
    ensures
        ({
            let r = current_hour_spec(parsed, now);
            &&& forall|j: int| 0 <= j < r ==> !(#[trigger] parsed[j] matches Some(d) && later_than(d, now))
            &&& r > 0 ==> {
                &&& r + 1 < parsed.len()
                &&& !(parsed[r] matches Some(d) && later_than(d, now))
                &&& parsed[r + 1] matches Some(d) && later_than(d, now)
            }
            &&& r == 0 ==> {
                ||| forall|j: int| 0 <= j < parsed.len() ==> !(#[trigger] parsed[j] matches Some(d) && later_than(d, now))
                ||| parsed.len() > 0 && (parsed[0] matches Some(d) && later_than(d, now))
                ||| parsed.len() > 1 && (parsed[1] matches Some(d) && later_than(d, now))
            }
        }),
{
    if exists|i: int| is_future(parsed, now, i) {
        let w = choose|i: int| is_future(parsed, now, i);
        lemma_least_future(parsed, now, w);
        let i = choose|i: int| is_future(parsed, now, i) && forall|j: int| 0 <= j < i ==> !is_future(parsed, now, j);
        lemma_first_future(parsed, now, i);
        let r = current_hour_spec(parsed, now);
        assert forall|j: int| 0 <= j < r implies !(#[trigger] parsed[j] matches Some(d) && later_than(d, now)) by {
            assert(!is_future(parsed, now, j));
        }
        if r > 0 {
            assert(!is_future(parsed, now, r));
        }
    } else {
        assert forall|j: int| 0 <= j < parsed.len() implies !(#[trigger] parsed[j] matches Some(d) && later_than(d, now)) by {
            assert(!is_future(parsed, now, j));
        }
    }
}

/// Below any future entry there is a first one.
proof fn lemma_least_future(parsed: Seq<Option<DateTimeUtc>>, now: DateTimeUtc, w: int)
    requires
        is_future(parsed, now, w),
    ensures
        exists|i: int| is_future(parsed, now, i) && forall|j: int| 0 <= j < i ==> !is_future(parsed, now, j),
    decreases w,
{
    if exists|j: int| 0 <= j < w && is_future(parsed, now, j) {
        let j = choose|j: int| 0 <= j < w && is_future(parsed, now, j);
        lemma_least_future(parsed, now, j);
    } else {
        assert(is_future(parsed, now, w) && forall|j: int| 0 <= j < w ==> !is_future(parsed, now, j));
    }
}

/// The hourly timestamps read as date-times (`None` where one does not parse).
pub open spec fn parsed_times(times: Seq<String>) -> Seq<Option<DateTimeUtc>> {
    times.map_values(|t: String| iso_datetime_spec(t@))
}

/// The index of the current hour in the hourly series, by the clock.
///
/// The index is the current hour at the instant the clock read: the entry before the
/// first timestamp after that instant, or 0. A system clock that chrono cannot read
/// (before 1970, or past chrono's range) reads as the Unix epoch.
pub fn find_current_hour_index(times: &Vec<String>) -> (res: usize)
    ensures
        exists|now: DateTimeUtc|
            is_clock_reading(now) && res == current_hour_spec(parsed_times(times@), now),
{
    let now = utc_now();
    let mut parsed: Vec<Option<DateTimeUtc>> = Vec::new();
    let mut i: usize = 0;
    while i < times.len()
        invariant
            i <= times@.len(),
            parsed@ == parsed_times(times@).subrange(0, i as int),
        decreases times.len() - i,
    {
        let entry = match parse_iso_datetime(times[i].as_str()) {
            Ok(d) => Some(d),
            Err(_) => None,
        };
        parsed.push(entry);
        i = i + 1;
        assert(parsed@ =~= parsed_times(times@).subrange(0, i as int));
    }
    assert(parsed@ =~= parsed_times(times@));
    let res = current_hour_index_at(&parsed, &now);
    assert(is_clock_reading(now) && res == current_hour_spec(parsed_times(times@), now));
    res
}

/// The latest representable date-time: no timestamp lies after it.
pub open spec fn latest_datetime() -> DateTimeUtc {
    DateTimeUtc {
        year: i32::MAX,
        month: u32::MAX,
        day: u32::MAX,
        hour: u32::MAX,
        minute: u32::MAX,
        second: u32::MAX,
        nanosecond: u32::MAX,
    }
}

/// At the latest date-time, the current hour is 0: no entry lies after it.
proof fn lemma_latest_has_no_future(parsed: Seq<Option<DateTimeUtc>>)
    ensures
        current_hour_spec(parsed, latest_datetime()) == 0,
{
    assert forall|i: int| !is_future(parsed, latest_datetime(), i) by {}
}

} // verus!
