//! Where an instant stands relative to the day's sunrise and sunset.

use crate::time::now_utc_seconds;
use crate::weather::{WeatherCondition, WeatherSnapshot};
use vstd::prelude::*;

verus! {

/// How long before sunset the "approaching" warning starts, in seconds.
pub const SUNSET_WARNING_SECONDS: i64 = 3600;

/// How an instant relates to sunset.
#[derive(Debug, Clone, Copy, PartialEq, Eq, Structural)]
pub enum SunsetPhase {
    /// More than an hour of light is left.
    WellBefore,
    /// Sunset is at most an hour away.
    Approaching,
    /// The sun has set.
    Past,
}

/// The sun is up at `now`: from sunrise to sunset, both included.
pub open spec fn daylight_at(w: WeatherSnapshot, now: int) -> bool {
    w.sunrise <= now <= w.sunset
}

/// Sunset is at most an hour after `now` and has not passed.
pub open spec fn approaching_sunset_at(w: WeatherSnapshot, now: int) -> bool {
    w.sunset - SUNSET_WARNING_SECONDS <= now <= w.sunset
}

/// Where `now` stands relative to sunset.
pub open spec fn sunset_phase_at(w: WeatherSnapshot, now: int) -> SunsetPhase {
    if now > w.sunset {
        SunsetPhase::Past
    } else if approaching_sunset_at(w, now) {
        SunsetPhase::Approaching
    } else {
        SunsetPhase::WellBefore
    }
}

/// Check if it is daylight at `now` (seconds since the Unix epoch).
pub fn is_daylight_at(condition: &WeatherCondition, now: i64) -> (res: bool)
    ensures
        res == daylight_at(condition@, now as int),
{
    now >= condition.sunrise && now <= condition.sunset
}

/// Check if sunset is within one hour after `now`.
pub fn is_approaching_sunset_at(condition: &WeatherCondition, now: i64) -> (res: bool)
    ensures
        res == approaching_sunset_at(condition@, now as int),
{
    if now > condition.sunset {
        false
    } else {
        // `sunset - now` cannot be taken directly: it may not fit.
        match now.checked_add(SUNSET_WARNING_SECONDS) {
            Some(limit) => limit >= condition.sunset,
            None => true,
        }
    }
}

/// Where `now` stands relative to the snapshot's sunset.
pub fn sunset_phase(condition: &WeatherCondition, now: i64) -> (res: SunsetPhase)
    ensures
        res == sunset_phase_at(condition@, now as int),
{
    if now > condition.sunset {
        SunsetPhase::Past
    } else if is_approaching_sunset_at(condition, now) {
        SunsetPhase::Approaching
    } else {
        SunsetPhase::WellBefore
    }
}

/// Check if it is currently daylight: the answer for whatever instant the
/// clock reported.
pub fn is_daylight(condition: &WeatherCondition) -> (res: bool)
    ensures
        exists|now: i64| res == #[trigger] daylight_at(condition@, now as int),
{
    let now: i64 = now_utc_seconds();
    let res = is_daylight_at(condition, now);
    assert(res == daylight_at(condition@, now as int));
    res
}

/// Check if sunset is currently within one hour: the answer for whatever
/// instant the clock reported.
pub fn is_approaching_sunset(condition: &WeatherCondition) -> (res: bool)
    ensures
        exists|now: i64| res == #[trigger] approaching_sunset_at(condition@, now as int),
{
    let now: i64 = now_utc_seconds();
    let res = is_approaching_sunset_at(condition, now);
    assert(res == approaching_sunset_at(condition@, now as int));
    res
}

/// The sunset phase agrees with the two predicates: it is approaching
/// exactly when sunset is within the hour, and nothing past sunset is
/// daylight.
pub proof fn lemma_sunset_phase_agrees(w: WeatherSnapshot, now: int)
    ensures
        sunset_phase_at(w, now) == SunsetPhase::Approaching <==> approaching_sunset_at(w, now),
        sunset_phase_at(w, now) == SunsetPhase::Past ==> !daylight_at(w, now),
{
}

} // verus!
