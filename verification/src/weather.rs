//! The weather gate: a snapshot of current conditions and the ordered safety
//! rules that can veto a walk.
//!
//! Temperatures are held in hundredths of a degree Fahrenheit and wind speeds
//! in hundredths of a mile per hour, so every threshold is an exact integer
//! comparison.

use crate::text::{
    hundredths_text, lemma_mentioned_in_part, mentions, occurs_at, push_hundredths, same_text,
};
use vstd::prelude::*;

verus! {

/// Hundredths per whole unit of temperature or wind speed.
pub const SCALE: i64 = 100;

/// Below this temperature (20 °F) a walk is unsafe.
pub const TOO_COLD_BELOW: i64 = 2000;

/// Above this temperature (95 °F) a walk is unsafe.
pub const TOO_HOT_ABOVE: i64 = 9500;

/// Above this wind speed (30 mph) a walk is unsafe.
pub const TOO_WINDY_ABOVE: i64 = 3000;

/// Reason given when it rains.
pub const RAIN_REASON: &'static str = "It's raining. Maybe wait a bit? 🌧️";

/// Reason given when it is too cold, up to the temperature.
pub const COLD_REASON_START: &'static str = "It's too cold (";

/// Reason given when it is too cold, after the temperature.
pub const COLD_REASON_END: &'static str = "°F). ❄️";

/// Reason given when it is too hot, up to the temperature.
pub const HOT_REASON_START: &'static str = "It's too hot (";

/// Reason given when it is too hot, after the temperature.
pub const HOT_REASON_END: &'static str = "°F). ☀️";

/// Reason given when it is too windy.
pub const WIND_REASON: &'static str = "It's too windy! 💨";

/// Reason given when no rule is broken.
pub const SAFE_REASON: &'static str = "Weather looks good!";

/// Weather condition summary, fetched fresh for each decision.
#[derive(Debug, Clone, PartialEq)]
pub struct WeatherCondition {
    /// Temperature in hundredths of a degree Fahrenheit.
    pub temperature: i64,
    pub description: String,
    pub is_raining: bool,
    pub is_snowing: bool,
    /// Wind speed in hundredths of a mile per hour.
    pub wind_speed: i64,
    /// Sunrise, in seconds since the Unix epoch.
    pub sunrise: i64,
    /// Sunset, in seconds since the Unix epoch.
    pub sunset: i64,
}

/// What a [`WeatherCondition`] holds, as mathematical values.
pub struct WeatherSnapshot {
    pub temperature: int,
    pub description: Seq<char>,
    pub is_raining: bool,
    pub is_snowing: bool,
    pub wind_speed: int,
    pub sunrise: int,
    pub sunset: int,
}

impl View for WeatherCondition {
    type V = WeatherSnapshot;

    open spec fn view(&self) -> WeatherSnapshot {
        WeatherSnapshot {
            temperature: self.temperature as int,
            description: self.description@,
            is_raining: self.is_raining,
            is_snowing: self.is_snowing,
            wind_speed: self.wind_speed as int,
            sunrise: self.sunrise as int,
            sunset: self.sunset as int,
        }
    }
}

impl Default for WeatherCondition {
    /// Zero degrees, calm, dry, with no description and both sun times at the
    /// epoch.
    fn default() -> (res: WeatherCondition)
        ensures
            res@ == (WeatherSnapshot {
                temperature: 0,
                description: Seq::<char>::empty(),
                is_raining: false,
                is_snowing: false,
                wind_speed: 0,
                sunrise: 0,
                sunset: 0,
            }),
    {
        WeatherCondition {
            temperature: 0,
            description: String::new(),
            is_raining: false,
            is_snowing: false,
            wind_speed: 0,
            sunrise: 0,
            sunset: 0,
        }
    }
}

/// The conditions that make a walk unsafe, in the order they are checked.
#[derive(Debug, Clone, Copy, PartialEq, Eq, Structural)]
pub enum Hazard {
    Rain,
    Cold,
    Heat,
    Wind,
}

/// The first safety rule that a snapshot breaks: rain, then cold, then heat,
/// then wind. `None` when the weather is safe.
pub open spec fn first_hazard(w: WeatherSnapshot) -> Option<Hazard> {
    if w.is_raining {
        Some(Hazard::Rain)
    } else if w.temperature < TOO_COLD_BELOW {
        Some(Hazard::Cold)
    } else if w.temperature > TOO_HOT_ABOVE {
        Some(Hazard::Heat)
    } else if w.wind_speed > TOO_WINDY_ABOVE {
        Some(Hazard::Wind)
    } else {
        None
    }
}

/// Whether no safety rule is broken.
pub open spec fn safe_to_walk(w: WeatherSnapshot) -> bool {
    first_hazard(w) is None
}

/// The sentence that explains the safety verdict for a snapshot.
pub open spec fn safety_reason(w: WeatherSnapshot) -> Seq<char> {
    match first_hazard(w) {
        Some(Hazard::Rain) => RAIN_REASON@,
        Some(Hazard::Cold) => COLD_REASON_START@ + hundredths_text(w.temperature)
            + COLD_REASON_END@,
        Some(Hazard::Heat) => HOT_REASON_START@ + hundredths_text(w.temperature)
            + HOT_REASON_END@,
        Some(Hazard::Wind) => WIND_REASON@,
        None => SAFE_REASON@,
    }
}

/// The first safety rule that `condition` breaks, if any.
pub fn weather_hazard(condition: &WeatherCondition) -> (res: Option<Hazard>)
    ensures
        res == first_hazard(condition@),
{
    if condition.is_raining {
        Some(Hazard::Rain)
    } else if condition.temperature < TOO_COLD_BELOW {
        Some(Hazard::Cold)
    } else if condition.temperature > TOO_HOT_ABOVE {
        Some(Hazard::Heat)
    } else if condition.wind_speed > TOO_WINDY_ABOVE {
        Some(Hazard::Wind)
    } else {
        None
    }
}

/// Check if the weather is safe for a walk. Returns the verdict and the
/// reason of the first rule that matched.
pub fn is_weather_safe(condition: &WeatherCondition) -> (res: (bool, String))
    ensures
        res.0 == safe_to_walk(condition@),
        res.1@ == safety_reason(condition@),
        condition.is_raining ==> !res.0 && res.1@ == RAIN_REASON@,
{
    match weather_hazard(condition) {
        Some(Hazard::Rain) => (false, RAIN_REASON.to_owned()),
        Some(Hazard::Cold) => {
            let mut reason = COLD_REASON_START.to_owned();
            push_hundredths(&mut reason, condition.temperature);
            reason.append(COLD_REASON_END);
            (false, reason)
        },
        Some(Hazard::Heat) => {
            let mut reason = HOT_REASON_START.to_owned();
            push_hundredths(&mut reason, condition.temperature);
            reason.append(HOT_REASON_END);
            (false, reason)
        },
        Some(Hazard::Wind) => (false, WIND_REASON.to_owned()),
        None => (true, SAFE_REASON.to_owned()),
    }
}

/// Rain makes a walk unsafe whatever the other readings are, and the reason
/// given mentions the rain.
pub proof fn lemma_rain_is_always_unsafe(w: WeatherSnapshot)
    requires
        w.is_raining,
    ensures
        !safe_to_walk(w),
        first_hazard(w) == Some(Hazard::Rain),
        mentions(safety_reason(w), "raining"@),
{
    reveal_strlit("It's raining. Maybe wait a bit? 🌧️");
    reveal_strlit("raining");
    assert(RAIN_REASON@.subrange(5, 12) =~= "raining"@);
    assert(occurs_at(safety_reason(w), "raining"@, 5));
}

/// The rules are tried in order and the first that matches wins: cold is
/// reported only when it is dry, heat only when it is dry and not cold, wind
/// only when nothing else is wrong, and the weather is safe exactly when no
/// rule matches.
pub proof fn lemma_first_match_wins(w: WeatherSnapshot)
    ensures
        first_hazard(w) == Some(Hazard::Rain) <==> w.is_raining,
        first_hazard(w) == Some(Hazard::Cold) <==> !w.is_raining && w.temperature
            < TOO_COLD_BELOW,
        first_hazard(w) == Some(Hazard::Heat) <==> !w.is_raining && w.temperature > TOO_HOT_ABOVE,
        first_hazard(w) == Some(Hazard::Wind) <==> !w.is_raining && TOO_COLD_BELOW
            <= w.temperature <= TOO_HOT_ABOVE && w.wind_speed > TOO_WINDY_ABOVE,
        safe_to_walk(w) <==> !w.is_raining && TOO_COLD_BELOW <= w.temperature <= TOO_HOT_ABOVE
            && w.wind_speed <= TOO_WINDY_ABOVE,
{
}

/// The reason for an unsafe verdict names what is wrong.
pub proof fn lemma_reason_names_the_hazard(w: WeatherSnapshot)
    ensures
        first_hazard(w) == Some(Hazard::Rain) ==> mentions(safety_reason(w), "raining"@),
        first_hazard(w) == Some(Hazard::Cold) ==> mentions(safety_reason(w), "cold"@),
        first_hazard(w) == Some(Hazard::Heat) ==> mentions(safety_reason(w), "hot"@),
        first_hazard(w) == Some(Hazard::Wind) ==> mentions(safety_reason(w), "windy"@),
{
    let empty = Seq::<char>::empty();
    let reading = hundredths_text(w.temperature);
    reveal_strlit("It's too cold (");
    reveal_strlit("It's too hot (");
    reveal_strlit("It's too windy! 💨");
    reveal_strlit("cold");
    reveal_strlit("hot");
    reveal_strlit("windy");
    match first_hazard(w) {
        Some(Hazard::Rain) => {
            lemma_rain_is_always_unsafe(w);
        },
        Some(Hazard::Cold) => {
            assert(COLD_REASON_START@.subrange(9, 13) =~= "cold"@);
            assert(occurs_at(COLD_REASON_START@, "cold"@, 9));
            lemma_mentioned_in_part(empty, COLD_REASON_START@, reading + COLD_REASON_END@, "cold"@);
            assert(empty + COLD_REASON_START@ + (reading + COLD_REASON_END@) =~= safety_reason(w));
        },
        Some(Hazard::Heat) => {
            assert(HOT_REASON_START@.subrange(9, 12) =~= "hot"@);
            assert(occurs_at(HOT_REASON_START@, "hot"@, 9));
            lemma_mentioned_in_part(empty, HOT_REASON_START@, reading + HOT_REASON_END@, "hot"@);
            assert(empty + HOT_REASON_START@ + (reading + HOT_REASON_END@) =~= safety_reason(w));
        },
        Some(Hazard::Wind) => {
            assert(WIND_REASON@.subrange(9, 14) =~= "windy"@);
            assert(occurs_at(WIND_REASON@, "windy"@, 9));
        },
        None => {},
    }
}

/// One entry of a weather report: a condition group such as `Rain` and a
/// human-readable description.
#[derive(Debug, Clone, PartialEq)]
pub struct WeatherEntry {
    pub main: String,
    pub description: String,
}

/// Whether a condition group counts as rain.
pub open spec fn is_rain_group(main: Seq<char>) -> bool {
    main == "Rain"@ || main == "Drizzle"@
}

/// Whether a condition group counts as snow.
pub open spec fn is_snow_group(main: Seq<char>) -> bool {
    main == "Snow"@
}

/// Some entry of the report is rain or drizzle.
pub open spec fn reports_rain(entries: Seq<WeatherEntry>) -> bool {
    exists|i: int| 0 <= i < entries.len() && is_rain_group(#[trigger] entries[i].main@)
}

/// Some entry of the report is snow.
pub open spec fn reports_snow(entries: Seq<WeatherEntry>) -> bool {
    exists|i: int| 0 <= i < entries.len() && is_snow_group(#[trigger] entries[i].main@)
}

/// The description of the first entry, or nothing for an empty report.
pub open spec fn first_description(entries: Seq<WeatherEntry>) -> Seq<char> {
    if entries.len() == 0 {
        Seq::<char>::empty()
    } else {
        entries[0].description@
    }
}

/// Builds the condition summary from the parts of a weather report:
/// it is raining when any entry is `Rain` or `Drizzle`, snowing when any is
/// `Snow`, and described by its first entry.
pub fn condition_from_report(
    temperature: i64,
    entries: &Vec<WeatherEntry>,
    wind_speed: i64,
    sunrise: i64,
    sunset: i64,
) -> (res: WeatherCondition)
    ensures
        res@ == (WeatherSnapshot {
            temperature: temperature as int,
            description: first_description(entries@),
            is_raining: reports_rain(entries@),
            is_snowing: reports_snow(entries@),
            wind_speed: wind_speed as int,
            sunrise: sunrise as int,
            sunset: sunset as int,
        }),
{
    let mut is_raining = false;
    let mut is_snowing = false;
    let mut i: usize = 0;
    while i < entries.len()
        invariant
            i <= entries.len(),
            is_raining == (exists|j: int|
                0 <= j < i && is_rain_group(#[trigger] entries@[j].main@)),
            is_snowing == (exists|j: int|
                0 <= j < i && is_snow_group(#[trigger] entries@[j].main@)),
        decreases entries.len() - i,
    {
        let main: &str = entries[i].main.as_str();
        if same_text(main, "Rain") || same_text(main, "Drizzle") {
            is_raining = true;
        }
        if same_text(main, "Snow") {
            is_snowing = true;
        }
        i = i + 1;
    }
    let description = if entries.len() == 0 {
        String::new()
    } else {
        entries[0].description.clone()
    };
    WeatherCondition {
        temperature,
        description,
        is_raining,
        is_snowing,
        wind_speed,
        sunrise,
        sunset,
    }
}

/// The weather address up to the API key.
pub const WEATHER_URL_START: &'static str =
    "https://api.openweathermap.org/data/2.5/weather?lat=41.6764&lon=-86.2520&appid=";

/// The weather address after the API key.
pub const WEATHER_URL_END: &'static str = "&units=imperial";

/// The address the current weather for South Bend, Indiana is fetched from,
/// in imperial units.
pub open spec fn weather_url_text(api_key: Seq<char>) -> Seq<char> {
    WEATHER_URL_START@ + api_key + WEATHER_URL_END@
}

/// The address to fetch the current weather from.
pub fn weather_url(api_key: &str) -> (res: String)
    ensures
        res@ == weather_url_text(api_key@),
{
    let mut url = WEATHER_URL_START.to_owned();
    url.append(api_key);
    url.append(WEATHER_URL_END);
    url
}

} // verus!
