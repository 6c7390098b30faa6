use boris_fiona_walker::message::{compose_message, get_walk_message};
use boris_fiona_walker::weather::WeatherCondition;

const NOON: i64 = 50_000;

fn weather(temperature: i64, is_raining: bool) -> WeatherCondition {
    WeatherCondition {
        temperature,
        description: "clear sky".to_string(),
        is_raining,
        is_snowing: false,
        wind_speed: 500,
        sunrise: 20_000,
        sunset: 80_000,
    }
}

#[test]
fn golden_hour_at_seventy_degrees_has_no_temperature_clause() {
    let text = compose_message(16, &weather(7000, false), false, NOON);
    assert_eq!(text, "🌅 Golden hour walk! Boris and Fiona would love a sunset stroll.");
    assert!(text.contains("Golden hour"));
    assert!(!text.contains("cold"));
    assert!(!text.contains("warm"));
}

#[test]
fn golden_hour_at_thirty_degrees_warns_of_cold() {
    let text = compose_message(16, &weather(3000, false), false, NOON);
    assert_eq!(
        text,
        "🌅 Golden hour walk! Boris and Fiona would love a sunset stroll. It's cold out, so \
         bundle up! 🧥"
    );
    assert!(text.contains("Golden hour"));
    assert!(text.contains("cold"));
}

#[test]
fn completed_walk_at_seventy_degrees_congratulates_and_mentions_comfort() {
    let text = compose_message(16, &weather(7000, false), true, NOON);
    assert_eq!(
        text,
        "🎉 Great job! Boris and Fiona already had their walk today. It's lovely out if they \
         fancy another stroll. Use the time you saved for something productive!"
    );
    assert!(text.contains("Great job"));
    assert!(text.contains("lovely"));
}

#[test]
fn comfort_clause_needs_dry_weather_strictly_between_sixty_and_eighty() {
    let plain = "🎉 Great job! Boris and Fiona already had their walk today. Use the time you \
                 saved for something productive!";
    assert_eq!(compose_message(16, &weather(6000, false), true, NOON), plain);
    assert_eq!(compose_message(16, &weather(8000, false), true, NOON), plain);
    assert_eq!(compose_message(16, &weather(7000, true), true, NOON), plain);
    assert!(compose_message(16, &weather(6001, false), true, NOON).contains("lovely"));
    assert!(compose_message(16, &weather(7999, false), true, NOON).contains("lovely"));
    // After a completed walk neither the hour nor the light matters.
    assert_eq!(compose_message(3, &weather(6000, false), true, 90_000), plain);
}

#[test]
fn temperature_clause_bounds_are_strict() {
    assert!(compose_message(14, &weather(3999, false), false, NOON).contains("cold"));
    assert!(!compose_message(14, &weather(4000, false), false, NOON).contains("cold"));
    assert!(!compose_message(14, &weather(8500, false), false, NOON).contains("warm"));
    assert!(compose_message(14, &weather(8501, false), false, NOON).contains("warm"));
    assert_eq!(
        compose_message(14, &weather(9000, false), false, NOON),
        "🐕 Afternoon walk time! Boris and Fiona are ready for their adventure. It's warm out, \
         so bring water! 💧"
    );
}

#[test]
fn daylight_clause_follows_the_sunset() {
    let w = weather(7000, false);
    let base = "🌆 Evening walk time! Boris and Fiona are waiting by the door.";
    assert_eq!(compose_message(18, &w, false, 80_000 - 3601), base);
    assert_eq!(
        compose_message(18, &w, false, 80_000 - 3600),
        format!("{} Sunset is approaching, so head out soon. 🌇", base)
    );
    assert_eq!(
        compose_message(18, &w, false, 80_000),
        format!("{} Sunset is approaching, so head out soon. 🌇", base)
    );
    assert_eq!(
        compose_message(18, &w, false, 80_001),
        format!("{} It's already dark, so take a light. 🔦", base)
    );
}

#[test]
fn temperature_clause_comes_before_daylight_clause() {
    let text = compose_message(19, &weather(1000, false), false, 90_000);
    assert_eq!(
        text,
        "🌆 Evening walk time! Boris and Fiona are waiting by the door. It's cold out, so \
         bundle up! 🧥 It's already dark, so take a light. 🔦"
    );
}

#[test]
fn base_phrase_follows_the_hour_bucket() {
    let afternoon = "🐕 Afternoon walk time! Boris and Fiona are ready for their adventure.";
    let golden = "🌅 Golden hour walk! Boris and Fiona would love a sunset stroll.";
    let evening = "🌆 Evening walk time! Boris and Fiona are waiting by the door.";
    let generic = "🐕 Walk time! Boris and Fiona need their daily adventure.";
    for hour in 0u8..=255 {
        let expected = match hour {
            14..=15 => afternoon,
            16..=17 => golden,
            18..=19 => evening,
            _ => generic,
        };
        assert_eq!(get_walk_message(hour), expected);
    }
}
