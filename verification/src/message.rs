//! The message composer: what the reminder says, given the hour, the
//! weather and whether the walk already happened.

use crate::daylight::{sunset_phase, sunset_phase_at, SunsetPhase};
use crate::text::{lemma_mentioned_in_part, mentions, occurs_at};
use crate::weather::{WeatherCondition, WeatherSnapshot};
use vstd::prelude::*;

verus! {

/// Opening phrase for 2 PM and 3 PM.
pub const AFTERNOON_PHRASE: &'static str =
    "🐕 Afternoon walk time! Boris and Fiona are ready for their adventure.";

/// Opening phrase for 4 PM and 5 PM.
pub const GOLDEN_HOUR_PHRASE: &'static str =
    "🌅 Golden hour walk! Boris and Fiona would love a sunset stroll.";

/// Opening phrase for 6 PM and 7 PM.
pub const EVENING_PHRASE: &'static str =
    "🌆 Evening walk time! Boris and Fiona are waiting by the door.";

/// Opening phrase for any other hour.
pub const GENERIC_PHRASE: &'static str =
    "🐕 Walk time! Boris and Fiona need their daily adventure.";

/// Added when it is cold.
pub const COLD_CLAUSE: &'static str = " It's cold out, so bundle up! 🧥";

/// Added when it is warm.
pub const WARM_CLAUSE: &'static str = " It's warm out, so bring water! 💧";

/// Added after sunset.
pub const DARK_CLAUSE: &'static str = " It's already dark, so take a light. 🔦";

/// Added in the last hour before sunset.
pub const SUNSET_CLAUSE: &'static str = " Sunset is approaching, so head out soon. 🌇";

/// Opening phrase when the walk was already logged today.
pub const DONE_PHRASE: &'static str =
    "🎉 Great job! Boris and Fiona already had their walk today.";

/// Added after a logged walk when the weather is pleasant.
pub const COMFORT_CLAUSE: &'static str = " It's lovely out if they fancy another stroll.";

/// Always closes the message after a logged walk.
pub const FREE_TIME_CLAUSE: &'static str = " Use the time you saved for something productive!";

/// Below this temperature (40 °F, in hundredths) the message warns of cold.
pub const COLD_CLAUSE_BELOW: i64 = 4000;

/// Above this temperature (85 °F, in hundredths) the message warns of heat.
pub const WARM_CLAUSE_ABOVE: i64 = 8500;

/// The comfort clause needs a temperature strictly above this (60 °F).
pub const COMFORT_ABOVE: i64 = 6000;

/// The comfort clause needs a temperature strictly below this (80 °F).
pub const COMFORT_BELOW: i64 = 8000;

/// The phrase for an hour of the day: afternoon for 14 and 15, golden hour
/// for 16 and 17, evening for 18 and 19, a generic one otherwise.
pub open spec fn base_phrase(hour: int) -> Seq<char> {
    if 14 <= hour <= 15 {
        AFTERNOON_PHRASE@
    } else if 16 <= hour <= 17 {
        GOLDEN_HOUR_PHRASE@
    } else if 18 <= hour <= 19 {
        EVENING_PHRASE@
    } else {
        GENERIC_PHRASE@
    }
}

/// At most one clause about the temperature: cold, warm or nothing.
pub open spec fn temperature_clause(temperature: int) -> Seq<char> {
    if temperature < COLD_CLAUSE_BELOW {
        COLD_CLAUSE@
    } else if temperature > WARM_CLAUSE_ABOVE {
        WARM_CLAUSE@
    } else {
        Seq::<char>::empty()
    }
}

/// At most one clause about the light: dark, sunset approaching or nothing.
pub open spec fn daylight_clause(w: WeatherSnapshot, now: int) -> Seq<char> {
    match sunset_phase_at(w, now) {
        SunsetPhase::Past => DARK_CLAUSE@,
        SunsetPhase::Approaching => SUNSET_CLAUSE@,
        SunsetPhase::WellBefore => Seq::<char>::empty(),
    }
}

/// Whether the weather is pleasant enough to mention: dry and strictly
/// between 60 °F and 80 °F.
pub open spec fn is_comfortable(w: WeatherSnapshot) -> bool {
    COMFORT_ABOVE < w.temperature < COMFORT_BELOW && !w.is_raining
}

/// The comfort clause, or nothing.
pub open spec fn comfort_clause(w: WeatherSnapshot) -> Seq<char> {
    if is_comfortable(w) {
        COMFORT_CLAUSE@
    } else {
        Seq::<char>::empty()
    }
}

/// The whole message. After a completed walk: congratulations, the comfort
/// clause if it applies, and the free-time suggestion. Otherwise: the phrase
/// for the hour, then the temperature clause, then the daylight clause.
pub open spec fn composed_text(
    hour: int,
    w: WeatherSnapshot,
    completed_today: bool,
    now: int,
) -> Seq<char> {
    if completed_today {
        DONE_PHRASE@ + comfort_clause(w) + FREE_TIME_CLAUSE@
    } else {
        base_phrase(hour) + temperature_clause(w.temperature) + daylight_clause(w, now)
    }
}

/// The phrase for `hour`, as a static text.
fn base_phrase_for(hour: u8) -> (res: &'static str)
    ensures
        res@ == base_phrase(hour as int),
{
    if 14 <= hour && hour <= 15 {
        AFTERNOON_PHRASE
    } else if 16 <= hour && hour <= 17 {
        GOLDEN_HOUR_PHRASE
    } else if 18 <= hour && hour <= 19 {
        EVENING_PHRASE
    } else {
        GENERIC_PHRASE
    }
}

/// Generate walk message based on time of day.
pub fn get_walk_message(hour: u8) -> (res: String)
    ensures
        res@ == base_phrase(hour as int),
{
    base_phrase_for(hour).to_owned()
}

/// Builds the reminder text for `hour` (Eastern), the weather snapshot,
/// whether the walk was already logged today, and the current instant
/// `now` in seconds since the Unix epoch.
pub fn compose_message(
    hour: u8,
    weather: &WeatherCondition,
    completed_today: bool,
    now: i64,
) -> (res: String)
    ensures
        res@ == composed_text(hour as int, weather@, completed_today, now as int),
{
    if completed_today {
        let mut text = DONE_PHRASE.to_owned();
        if COMFORT_ABOVE < weather.temperature && weather.temperature < COMFORT_BELOW
            && !weather.is_raining {
            text.append(COMFORT_CLAUSE);
        }
        text.append(FREE_TIME_CLAUSE);
        assert(text@ =~= composed_text(hour as int, weather@, completed_today, now as int));
        text
    } else {
        let mut text = get_walk_message(hour);
        if weather.temperature < COLD_CLAUSE_BELOW {
            text.append(COLD_CLAUSE);
        } else if weather.temperature > WARM_CLAUSE_ABOVE {
            text.append(WARM_CLAUSE);
        }
        match sunset_phase(weather, now) {
            SunsetPhase::Past => {
                text.append(DARK_CLAUSE);
            },
            SunsetPhase::Approaching => {
                text.append(SUNSET_CLAUSE);
            },
            SunsetPhase::WellBefore => {},
        }
        assert(text@ =~= composed_text(hour as int, weather@, completed_today, now as int));
        text
    }
}

/// Each opening phrase names its time of day.
pub proof fn lemma_phrase_names_its_theme(hour: int)
    ensures
        14 <= hour <= 15 ==> mentions(base_phrase(hour), "Afternoon"@),
        16 <= hour <= 17 ==> mentions(base_phrase(hour), "Golden hour"@),
        18 <= hour <= 19 ==> mentions(base_phrase(hour), "Evening"@),
{
    reveal_strlit("🐕 Afternoon walk time! Boris and Fiona are ready for their adventure.");
    reveal_strlit("🌅 Golden hour walk! Boris and Fiona would love a sunset stroll.");
    reveal_strlit("🌆 Evening walk time! Boris and Fiona are waiting by the door.");
    reveal_strlit("Afternoon");
    reveal_strlit("Golden hour");
    reveal_strlit("Evening");
    assert(AFTERNOON_PHRASE@.subrange(2, 11) =~= "Afternoon"@);
    assert(occurs_at(AFTERNOON_PHRASE@, "Afternoon"@, 2));
    assert(GOLDEN_HOUR_PHRASE@.subrange(2, 13) =~= "Golden hour"@);
    assert(occurs_at(GOLDEN_HOUR_PHRASE@, "Golden hour"@, 2));
    assert(EVENING_PHRASE@.subrange(2, 9) =~= "Evening"@);
    assert(occurs_at(EVENING_PHRASE@, "Evening"@, 2));
}

/// Before the walk, the message opens with the phrase for the hour and so
/// names the time of day; between 40 °F and 85 °F it says nothing about the
/// temperature, and below 40 °F it mentions the cold.
pub proof fn lemma_reminder_text(hour: int, w: WeatherSnapshot, now: int)
    ensures
        composed_text(hour, w, false, now).subrange(0, base_phrase(hour).len() as int)
            == base_phrase(hour),
        COLD_CLAUSE_BELOW <= w.temperature <= WARM_CLAUSE_ABOVE ==> composed_text(
            hour,
            w,
            false,
            now,
        ) == base_phrase(hour) + daylight_clause(w, now),
        w.temperature < COLD_CLAUSE_BELOW ==> mentions(composed_text(hour, w, false, now), "cold"@),
        w.temperature > WARM_CLAUSE_ABOVE ==> mentions(composed_text(hour, w, false, now), "warm"@),
        16 <= hour <= 17 ==> mentions(composed_text(hour, w, false, now), "Golden hour"@),
{
    let text = composed_text(hour, w, false, now);
    let base = base_phrase(hour);
    let empty = Seq::<char>::empty();
    assert(text.subrange(0, base.len() as int) =~= base);
    if COLD_CLAUSE_BELOW <= w.temperature <= WARM_CLAUSE_ABOVE {
        assert(text =~= base + daylight_clause(w, now));
    }
    reveal_strlit(" It's cold out, so bundle up! 🧥");
    reveal_strlit(" It's warm out, so bring water! 💧");
    reveal_strlit("cold");
    reveal_strlit("warm");
    if w.temperature < COLD_CLAUSE_BELOW {
        assert(COLD_CLAUSE@.subrange(6, 10) =~= "cold"@);
        assert(occurs_at(COLD_CLAUSE@, "cold"@, 6));
        lemma_mentioned_in_part(base, COLD_CLAUSE@, daylight_clause(w, now), "cold"@);
    }
    if w.temperature > WARM_CLAUSE_ABOVE {
        assert(WARM_CLAUSE@.subrange(6, 10) =~= "warm"@);
        assert(occurs_at(WARM_CLAUSE@, "warm"@, 6));
        lemma_mentioned_in_part(base, WARM_CLAUSE@, daylight_clause(w, now), "warm"@);
    }
    if 16 <= hour <= 17 {
        lemma_phrase_names_its_theme(hour);
        lemma_mentioned_in_part(
            empty,
            base,
            temperature_clause(w.temperature) + daylight_clause(w, now),
            "Golden hour"@,
        );
        assert(empty + base + (temperature_clause(w.temperature) + daylight_clause(w, now))
            =~= text);
    }
}

/// After a logged walk the message congratulates, whatever the hour and the
/// light, mentions the weather exactly when it is comfortable, and always
/// ends with the free-time suggestion.
pub proof fn lemma_congratulation_text(hour: int, w: WeatherSnapshot, now: int)
    ensures
        mentions(composed_text(hour, w, true, now), "Great job"@),
        is_comfortable(w) ==> composed_text(hour, w, true, now) == DONE_PHRASE@ + COMFORT_CLAUSE@
            + FREE_TIME_CLAUSE@,
        !is_comfortable(w) ==> composed_text(hour, w, true, now) == DONE_PHRASE@
            + FREE_TIME_CLAUSE@,
        is_comfortable(w) ==> mentions(composed_text(hour, w, true, now), COMFORT_CLAUSE@),
{
    let text = composed_text(hour, w, true, now);
    let empty = Seq::<char>::empty();
    reveal_strlit("🎉 Great job! Boris and Fiona already had their walk today.");
    reveal_strlit("Great job");
    assert(DONE_PHRASE@.subrange(2, 11) =~= "Great job"@);
    assert(occurs_at(DONE_PHRASE@, "Great job"@, 2));
    lemma_mentioned_in_part(empty, DONE_PHRASE@, comfort_clause(w) + FREE_TIME_CLAUSE@, "Great job"@);
    assert(empty + DONE_PHRASE@ + (comfort_clause(w) + FREE_TIME_CLAUSE@) =~= text);
    if is_comfortable(w) {
        assert(COMFORT_CLAUSE@.subrange(0, COMFORT_CLAUSE@.len() as int) =~= COMFORT_CLAUSE@);
        assert(occurs_at(COMFORT_CLAUSE@, COMFORT_CLAUSE@, 0));
        lemma_mentioned_in_part(DONE_PHRASE@, COMFORT_CLAUSE@, FREE_TIME_CLAUSE@, COMFORT_CLAUSE@);
    } else {
        assert(text =~= DONE_PHRASE@ + FREE_TIME_CLAUSE@);
    }
}

} // verus!
