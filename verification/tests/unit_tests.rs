use boris_fiona_walker::beeminder::{filter_urgent_goals, pick_pivot_goal, Goal};
use boris_fiona_walker::daylight::{is_approaching_sunset, is_daylight, is_daylight_at};
use boris_fiona_walker::sms::encode_basic_auth;
use boris_fiona_walker::time::{date_eastern_at, hour_eastern_at, is_hour_in_walk_window};
use boris_fiona_walker::weather::{is_weather_safe, WeatherCondition};
use chrono::{NaiveDate, NaiveTime, TimeZone};
use chrono_tz::US::Eastern;

#[test]
fn test_pick_pivot_goal() {
    let goals = vec![Goal {
        slug: "urgent".into(),
        title: "Urgent".into(),
        derail_risk: "WARNING".into(),
    }];
    let pivot = pick_pivot_goal(goals);
    assert!(pivot.is_some());
    assert_eq!(pivot.unwrap().slug, "urgent");
}

#[test]
fn test_urgent_goals_filtering() {
    let goals = vec![
        Goal { slug: "safe".into(), title: "Safe Goal".into(), derail_risk: "SAFE".into() },
        Goal { slug: "urgent".into(), title: "Urgent Goal".into(), derail_risk: "WARNING".into() },
        Goal {
            slug: "critical".into(),
            title: "Critical Goal".into(),
            derail_risk: "CRITICAL".into(),
        },
    ];

    let urgent = filter_urgent_goals(goals);
    assert_eq!(urgent.len(), 2, "Should find WARNING and CRITICAL goals");
    assert!(urgent.iter().any(|g| g.slug == "urgent"));
    assert!(urgent.iter().any(|g| g.slug == "critical"));
}

#[test]
fn test_daylight_logic() {
    let sunrise = 1000;
    let sunset = 2000;
    let condition = WeatherCondition { sunrise, sunset, ..Default::default() };

    // The answer for the present moment depends on the clock.
    let _ = is_daylight(&condition);
    let _ = is_approaching_sunset(&condition);

    // With the instant given, the answer is fixed.
    assert!(is_daylight_at(&condition, 1000));
    assert!(is_daylight_at(&condition, 1500));
    assert!(is_daylight_at(&condition, 2000));
    assert!(!is_daylight_at(&condition, 999));
    assert!(!is_daylight_at(&condition, 2001));
}

#[test]
fn test_basic_auth_encoding() {
    let encoded = encode_basic_auth("user", "pass");
    assert!(!encoded.is_empty());
}

#[test]
fn test_walk_time_window_boundaries() {
    // Walk reminders go out between 2 and 6 PM Eastern.

    // Before walk window
    assert!(!is_hour_in_walk_window(13)); // 1 PM - too early
    assert!(!is_hour_in_walk_window(12)); // 12 PM - too early
    assert!(!is_hour_in_walk_window(11)); // 11 AM - too early

    // During walk window
    assert!(is_hour_in_walk_window(14)); // 2 PM - start of window
    assert!(is_hour_in_walk_window(15)); // 3 PM - middle of window
    assert!(is_hour_in_walk_window(16)); // 4 PM - middle of window
    assert!(is_hour_in_walk_window(17)); // 5 PM - middle of window
    assert!(is_hour_in_walk_window(18)); // 6 PM - end of window

    // After walk window
    assert!(!is_hour_in_walk_window(19)); // 7 PM - too late
    assert!(!is_hour_in_walk_window(20)); // 8 PM - too late
    assert!(!is_hour_in_walk_window(23)); // 11 PM - too late
    assert!(!is_hour_in_walk_window(0)); // Midnight - too late
}

#[test]
fn test_timezone_conversion_concept() {
    // 6 PM UTC on a standard time day is 1 PM EST.
    let utc_dt = chrono::Utc.with_ymd_and_hms(2025, 1, 15, 18, 0, 0).unwrap();
    assert_eq!(hour_eastern_at(utc_dt.timestamp()), Ok(13));

    // During daylight saving time the offset is different: 2 PM EDT.
    let utc_dt_summer = chrono::Utc.with_ymd_and_hms(2025, 7, 15, 18, 0, 0).unwrap();
    assert_eq!(hour_eastern_at(utc_dt_summer.timestamp()), Ok(14));
}

#[test]
fn test_date_formatting() {
    // The date format used for rate limiting.
    let test_date = NaiveDate::from_ymd_opt(2025, 10, 19).unwrap();
    let test_time = NaiveTime::from_hms_opt(15, 30, 0).unwrap();
    let test_datetime = test_date.and_time(test_time);

    let eastern_dt = Eastern.from_local_datetime(&test_datetime).unwrap();
    let formatted = date_eastern_at(eastern_dt.timestamp()).unwrap();

    assert_eq!(formatted, "2025-10-19");
    assert_eq!(formatted, eastern_dt.format("%Y-%m-%d").to_string());
}

#[test]
fn test_weather_safe_logic() {
    // Readings are in hundredths: 70.0 degrees, wind 10.0.
    let safe_condition = WeatherCondition {
        temperature: 70 * 100,
        description: "clear sky".to_string(),
        is_raining: false,
        is_snowing: false,
        wind_speed: 10 * 100,
        sunrise: 1000,
        sunset: 2000,
    };
    let (safe, _) = is_weather_safe(&safe_condition);
    assert!(safe);

    let rainy_condition = WeatherCondition { is_raining: true, ..safe_condition.clone() };
    let (safe, msg) = is_weather_safe(&rainy_condition);
    assert!(!safe);
    assert!(msg.contains("raining"));

    let freezing_condition = WeatherCondition { temperature: 10 * 100, ..safe_condition.clone() };
    let (safe, msg) = is_weather_safe(&freezing_condition);
    assert!(!safe);
    assert!(msg.contains("cold"));

    let windy_condition = WeatherCondition { wind_speed: 35 * 100, ..safe_condition.clone() };
    let (safe, msg) = is_weather_safe(&windy_condition);
    assert!(!safe);
    assert!(msg.contains("windy"));
}
