//! The clock seam: the current instant, its hour and date in US Eastern time,
//! and the afternoon window in which a reminder may be sent.

use chrono::TimeZone;
use chrono::Timelike;
use vstd::prelude::*;

verus! {

/// First hour (Eastern, 24-hour clock) in which a reminder may be sent.
pub const WALK_WINDOW_START: u8 = 14;

/// Last hour (Eastern, 24-hour clock) in which a reminder may be sent.
pub const WALK_WINDOW_END: u8 = 18;

/// First instant after the year 9999, in seconds since the Unix epoch.
pub const END_OF_CALENDAR: i64 = 253_402_300_800;

/// Why an instant could not be turned into a civil time.
#[derive(Debug, Clone, Copy, PartialEq, Eq, Structural)]
pub enum TimeError {
    /// The instant lies outside the years the calendar can represent.
    OutOfRange,
}

impl TimeError {
    /// The error in words.
    pub open spec fn text(self) -> Seq<char> {
        "instant is outside the supported calendar range"@
    }

    /// A human-readable description of the error.
    pub fn message(&self) -> (res: String)
        ensures
            res@ == self.text(),
    {
        "instant is outside the supported calendar range".to_owned()
    }
}

/// Whether `hour` lies in the closed window from 2 PM to 6 PM.
pub open spec fn in_walk_window(hour: int) -> bool {
    WALK_WINDOW_START <= hour <= WALK_WINDOW_END
}

/// Instants from the Unix epoch to the end of the year 9999, all of which
/// have an Eastern civil time.
pub open spec fn in_common_era(utc_seconds: i64) -> bool {
    0 <= utc_seconds < END_OF_CALENDAR
}

/// Whether a reminder may be sent during `hour` (Eastern, 0 to 23).
pub fn is_hour_in_walk_window(hour: u8) -> (res: bool)
    ensures
        res == in_walk_window(hour as int),
{
    WALK_WINDOW_START <= hour && hour <= WALK_WINDOW_END
}

/// The hour of day in US Eastern time at `utc_seconds` after the Unix epoch,
/// daylight saving included, or `None` where the calendar has no such instant.
pub uninterp spec fn eastern_hour(utc_seconds: i64) -> Option<u8>;

/// The Eastern calendar date at `utc_seconds` after the Unix epoch, written
/// `YYYY-MM-DD`, or `None` where the calendar has no such instant.
pub uninterp spec fn eastern_date(utc_seconds: i64) -> Option<Seq<char>>;

/// The UTC calendar date at `utc_seconds` after the Unix epoch, written
/// `YYYYMMDD`, or `None` where the calendar has no such instant.
pub uninterp spec fn utc_daystamp(utc_seconds: i64) -> Option<Seq<char>>;

/// A text that may be absent, as mathematical values.
pub open spec fn text_option(text: Option<String>) -> Option<Seq<char>> {
    match text {
        Some(s) => Some(s@),
        None => None,
    }
}

/// Reads the system clock through `chrono::Utc::now` and returns whole
/// seconds since the Unix epoch. Nothing is assumed about the value.
/// (chrono stops the program if the system clock is set before 1970.)
#[verifier::external_body]
fn clock_utc_seconds() -> i64 {
    chrono::Utc::now().timestamp()
}

/// Calls `chrono::DateTime::from_timestamp`, converts to
/// `chrono_tz::US::Eastern` with `TimeZone::from_utc_datetime` and takes
/// `Timelike::hour`.
///
/// Assumed: the result is a function of the instant alone; an hour is at most
/// 23; and instants between 1970 and the end of 9999 are representable
/// (chrono's dates reach well past year 200000 in both directions).
#[verifier::external_body]
fn eastern_hour_of(utc_seconds: i64) -> (res: Option<u8>)
    ensures
        res == eastern_hour(utc_seconds),
        res matches Some(h) ==> h <= 23,
        in_common_era(utc_seconds) ==> res is Some,
{
    let utc = chrono::DateTime::from_timestamp(utc_seconds, 0)?;
    Some(chrono_tz::US::Eastern.from_utc_datetime(&utc.naive_utc()).hour() as u8)
}

/// Calls `chrono::DateTime::from_timestamp`, converts to
/// `chrono_tz::US::Eastern` with `TimeZone::from_utc_datetime` and formats
/// the date with `DateTime::format("%Y-%m-%d")`.
///
/// Assumed: the result is a function of the instant alone, and instants
/// between 1970 and the end of 9999 are representable.
#[verifier::external_body]
fn eastern_date_of(utc_seconds: i64) -> (res: Option<String>)
    ensures
        text_option(res) == eastern_date(utc_seconds),
        in_common_era(utc_seconds) ==> res is Some,
{
    let utc = chrono::DateTime::from_timestamp(utc_seconds, 0)?;
    let local = chrono_tz::US::Eastern.from_utc_datetime(&utc.naive_utc());
    Some(local.format("%Y-%m-%d").to_string())
}

/// Calls `chrono::DateTime::from_timestamp` and formats the UTC date with
/// `DateTime::format("%Y%m%d")`.
///
/// Assumed: the result is a function of the instant alone, and instants
/// between 1970 and the end of 9999 are representable.
#[verifier::external_body]
fn utc_daystamp_of(utc_seconds: i64) -> (res: Option<String>)
    ensures
        text_option(res) == utc_daystamp(utc_seconds),
        in_common_era(utc_seconds) ==> res is Some,
{
    let utc = chrono::DateTime::from_timestamp(utc_seconds, 0)?;
    Some(utc.format("%Y%m%d").to_string())
}

/// The current instant in whole seconds since the Unix epoch.
pub fn now_utc_seconds() -> i64 {
    clock_utc_seconds()
}

/// The Eastern hour at a given instant, or the error where the instant has
/// no civil time.
pub open spec fn hour_eastern_result(utc_seconds: i64) -> Result<u8, TimeError> {
    match eastern_hour(utc_seconds) {
        Some(h) => Ok(h),
        None => Err(TimeError::OutOfRange),
    }
}

/// The Eastern hour (0 to 23) at `utc_seconds` after the Unix epoch.
pub fn hour_eastern_at(utc_seconds: i64) -> (res: Result<u8, TimeError>)
    ensures
        res == hour_eastern_result(utc_seconds),
        res matches Ok(h) ==> h <= 23,
        in_common_era(utc_seconds) ==> res is Ok,
{
    match eastern_hour_of(utc_seconds) {
        Some(h) => Ok(h),
        None => Err(TimeError::OutOfRange),
    }
}

/// A text result as mathematical values.
pub open spec fn text_result(res: Result<String, TimeError>) -> Result<Seq<char>, TimeError> {
    match res {
        Ok(s) => Ok(s@),
        Err(e) => Err(e),
    }
}

/// The Eastern date at a given instant, or the error where the instant has
/// no civil time.
pub open spec fn date_eastern_result(utc_seconds: i64) -> Result<Seq<char>, TimeError> {
    match eastern_date(utc_seconds) {
        Some(date) => Ok(date),
        None => Err(TimeError::OutOfRange),
    }
}

/// The UTC day-stamp at a given instant, or the error where the instant has
/// no civil time.
pub open spec fn daystamp_utc_result(utc_seconds: i64) -> Result<Seq<char>, TimeError> {
    match utc_daystamp(utc_seconds) {
        Some(day) => Ok(day),
        None => Err(TimeError::OutOfRange),
    }
}

/// The Eastern date (`YYYY-MM-DD`) at `utc_seconds` after the Unix epoch.
pub fn date_eastern_at(utc_seconds: i64) -> (res: Result<String, TimeError>)
    ensures
        text_result(res) == date_eastern_result(utc_seconds),
        in_common_era(utc_seconds) ==> res is Ok,
{
    match eastern_date_of(utc_seconds) {
        Some(s) => Ok(s),
        None => Err(TimeError::OutOfRange),
    }
}

/// The UTC day-stamp (`YYYYMMDD`) at `utc_seconds` after the Unix epoch.
pub fn daystamp_utc_at(utc_seconds: i64) -> (res: Result<String, TimeError>)
    ensures
        text_result(res) == daystamp_utc_result(utc_seconds),
        in_common_era(utc_seconds) ==> res is Ok,
{
    match utc_daystamp_of(utc_seconds) {
        Some(s) => Ok(s),
        None => Err(TimeError::OutOfRange),
    }
}

/// Whether a reminder may be sent at a given instant.
pub open spec fn walk_time_result(utc_seconds: i64) -> Result<bool, TimeError> {
    match eastern_hour(utc_seconds) {
        Some(h) => Ok(in_walk_window(h as int)),
        None => Err(TimeError::OutOfRange),
    }
}

/// Whether `utc_seconds` after the Unix epoch falls in the reminder window.
pub fn is_walk_time_at(utc_seconds: i64) -> (res: Result<bool, TimeError>)
    ensures
        res == walk_time_result(utc_seconds),
        in_common_era(utc_seconds) ==> res is Ok,
{
    match hour_eastern_at(utc_seconds) {
        Ok(h) => Ok(is_hour_in_walk_window(h)),
        Err(e) => Err(e),
    }
}

/// The current hour in Eastern time: the hour of whatever instant the clock
/// reported.
pub fn get_current_hour_eastern() -> (res: Result<u8, TimeError>)
    ensures
        exists|now: i64| res == #[trigger] hour_eastern_result(now),
        res matches Ok(h) ==> h <= 23,
{
    let now: i64 = now_utc_seconds();
    hour_eastern_at(now)
}

/// The current date in Eastern time, `YYYY-MM-DD`: the date of whatever
/// instant the clock reported.
pub fn get_current_date_eastern() -> (res: Result<String, TimeError>)
    ensures
        exists|now: i64| text_result(res) == #[trigger] date_eastern_result(now),
{
    let now: i64 = now_utc_seconds();
    date_eastern_at(now)
}

/// Whether the clock currently reads a time inside the reminder window.
pub fn is_walk_time() -> (res: Result<bool, TimeError>)
    ensures
        exists|now: i64| res == #[trigger] walk_time_result(now),
{
    let now: i64 = now_utc_seconds();
    is_walk_time_at(now)
}

} // verus!
