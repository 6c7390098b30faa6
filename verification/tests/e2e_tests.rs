use boris_fiona_walker::rate_limit::{RateLimiter, StoreRead};
use boris_fiona_walker::reminder::{start, step, Action, Event, Failure, Outcome, Phase, SkipReason};
use boris_fiona_walker::sms::{delivery_result, is_success_status};
use boris_fiona_walker::weather::{
    condition_from_report, weather_url, WeatherCondition, WeatherEntry,
};

/// 2025-10-19 15:30 in New York (19:30 UTC).
const THREE_THIRTY_PM: i64 = 1_760_902_200;

/// 2025-10-19 12:30 in New York.
const HALF_PAST_NOON: i64 = 1_760_891_400;

/// 2025-10-19 16:30 in New York.
const FOUR_THIRTY_PM: i64 = 1_760_905_800;

fn clear_sky() -> WeatherCondition {
    condition_from_report(
        7250,
        &vec![WeatherEntry { main: "Clear".into(), description: "clear sky".into() }],
        520,
        1_700_000_000,
        1_700_050_000,
    )
}

fn rainy() -> WeatherCondition {
    WeatherCondition { is_raining: true, ..clear_sky() }
}

/// What one simulated cycle did: every action the engine asked for, the
/// outcome, and what the store holds afterwards.
struct Cycle {
    asked: Vec<Action>,
    outcome: Outcome,
    stored: Option<String>,
}

/// Runs one cycle against a store that holds `stored`, answering each action
/// from the given signals.
fn run(
    now: i64,
    stored: Option<&str>,
    habit: Option<bool>,
    weather: Result<WeatherCondition, String>,
    gateway_status: u16,
) -> Cycle {
    let mut limiter = match stored {
        Some(date) => RateLimiter::from_read(StoreRead::Found(date.to_string())),
        None => RateLimiter::from_read(StoreRead::Missing),
    };
    let (mut phase, mut action) = start();
    let mut asked = Vec::new();
    for _ in 0..10 {
        asked.push(action.clone());
        let event = match action {
            Action::ReadClock => Event::Clock(now),
            Action::ReadLastSent => Event::LastSent(match limiter.last_sent() {
                Some(date) => StoreRead::Found(date),
                None => StoreRead::Missing,
            }),
            Action::FetchHabit => Event::Habit(habit),
            Action::FetchWeather => Event::Weather(weather.clone()),
            Action::SendSms(_) => {
                Event::Delivery(delivery_result(gateway_status, "{\"sid\":\"SM123\"}"))
            }
            Action::RecordSent(date) => {
                limiter.mark_sent_now(&date);
                Event::Recorded(true)
            }
            Action::Finish(outcome) => {
                assert_eq!(phase, Phase::Done);
                return Cycle { asked, outcome, stored: limiter.last_sent() };
            }
        };
        let next = step(phase, event);
        phase = next.0;
        action = next.1;
    }
    panic!("the cycle did not end");
}

/// Runs one cycle with a fixed answer from the store, and returns every
/// action the engine asked for together with the outcome.
fn drive(
    now: i64,
    stored: StoreRead,
    habit: Option<bool>,
    weather: Result<WeatherCondition, String>,
    gateway_status: u16,
) -> (Vec<Action>, Outcome) {
    let (mut phase, mut action) = start();
    let mut asked = Vec::new();
    for _ in 0..10 {
        asked.push(action.clone());
        let event = match action {
            Action::ReadClock => Event::Clock(now),
            Action::ReadLastSent => Event::LastSent(stored.clone()),
            Action::FetchHabit => Event::Habit(habit),
            Action::FetchWeather => Event::Weather(weather.clone()),
            Action::SendSms(_) => Event::Delivery(delivery_result(gateway_status, "{}")),
            Action::RecordSent(_) => Event::Recorded(true),
            Action::Finish(outcome) => {
                assert_eq!(phase, Phase::Done);
                return (asked, outcome);
            }
        };
        let next = step(phase, event);
        phase = next.0;
        action = next.1;
    }
    panic!("the cycle did not end");
}

#[test]
fn test_full_reminder_workflow() {
    // The weather service answers GET /data/2.5/weather with status 200.
    assert!(weather_url("key").contains("/data/2.5/weather"));
    assert!(is_success_status(200));
    let body = "{\"main\": {\"temp\": 72.5}, \
                \"weather\": [{\"main\": \"Clear\", \"description\": \"clear sky\"}], \
                \"wind\": {\"speed\": 5.2}, \
                \"sys\": {\"sunrise\": 1700000000, \"sunset\": 1700050000}}";
    let report: serde_json::Value = serde_json::from_str(body).unwrap();
    let hundredths = |reading: &serde_json::Value| (reading.as_f64().unwrap() * 100.0).round() as i64;
    let entries: Vec<WeatherEntry> = report["weather"]
        .as_array()
        .unwrap()
        .iter()
        .map(|entry| WeatherEntry {
            main: entry["main"].as_str().unwrap().to_string(),
            description: entry["description"].as_str().unwrap().to_string(),
        })
        .collect();
    let weather = condition_from_report(
        hundredths(&report["main"]["temp"]),
        &entries,
        hundredths(&report["wind"]["speed"]),
        report["sys"]["sunrise"].as_i64().unwrap(),
        report["sys"]["sunset"].as_i64().unwrap(),
    );
    assert_eq!(weather, clear_sky());
    assert_eq!(weather.temperature, 7250);
    assert_eq!(weather.description, "clear sky");
    assert!(!weather.is_raining);
    assert!(!weather.is_snowing);
    assert_eq!(weather.wind_speed, 520);
    assert_eq!(weather.sunrise, 1700000000);
    assert_eq!(weather.sunset, 1700050000);

    // The gateway answers the POST with status 201 and a message sid.
    let cycle = run(THREE_THIRTY_PM, None, Some(false), Ok(weather), 201);
    assert_eq!(cycle.outcome, Outcome::Sent);
    assert_eq!(cycle.asked.len(), 7);
    assert_eq!(cycle.stored, Some("2025-10-19".to_string()));
    assert!(true);
}

#[test]
fn sent_reminder_leaves_todays_date_in_the_store() {
    let cycle = run(THREE_THIRTY_PM, Some("2025-10-18"), Some(false), Ok(clear_sky()), 201);
    assert_eq!(cycle.outcome, Outcome::Sent);
    assert_eq!(cycle.stored, Some("2025-10-19".to_string()));

    // A second trigger in the same window finds the date and stops.
    let again = run(FOUR_THIRTY_PM, cycle.stored.as_deref(), Some(false), Ok(clear_sky()), 201);
    assert_eq!(again.outcome, Outcome::Skipped(SkipReason::AlreadySent));
    assert_eq!(again.stored, Some("2025-10-19".to_string()));
    assert!(!again.asked.iter().any(|a| matches!(a, Action::SendSms(_))));
}

#[test]
fn skipped_and_failed_cycles_leave_the_store_as_it_was() {
    let before = Some("2025-10-18");
    let kept = Some("2025-10-18".to_string());
    let outside = run(HALF_PAST_NOON, before, Some(false), Ok(clear_sky()), 201);
    assert_eq!(outside.outcome, Outcome::Skipped(SkipReason::OutsideWindow));
    assert_eq!(outside.stored, kept);
    let sent_already = run(THREE_THIRTY_PM, Some("2025-10-19"), None, Ok(clear_sky()), 201);
    assert_eq!(sent_already.outcome, Outcome::Skipped(SkipReason::AlreadySent));
    assert_eq!(sent_already.stored, Some("2025-10-19".to_string()));
    assert!(!sent_already.asked.iter().any(|a| matches!(a, Action::SendSms(_))));
    assert!(!sent_already.asked.iter().any(|a| matches!(a, Action::RecordSent(_))));
    let vetoed = run(FOUR_THIRTY_PM, before, Some(false), Ok(rainy()), 201);
    assert_eq!(vetoed.outcome, Outcome::Skipped(SkipReason::UnsafeWeather));
    assert_eq!(vetoed.stored, kept);
    let refused = run(FOUR_THIRTY_PM, before, Some(false), Ok(clear_sky()), 503);
    assert!(matches!(refused.outcome, Outcome::Failed(Failure::Gateway(_))));
    assert_eq!(refused.stored, kept);
    let no_weather = run(FOUR_THIRTY_PM, before, Some(false), Err("timeout".into()), 201);
    assert_eq!(no_weather.outcome, Outcome::Failed(Failure::Weather("timeout".into())));
    assert_eq!(no_weather.stored, kept);
}

#[test]
fn eligible_hour_with_safe_weather_sends_and_records_today() {
    let (asked, outcome) =
        drive(THREE_THIRTY_PM, StoreRead::Missing, Some(false), Ok(clear_sky()), 201);
    assert_eq!(outcome, Outcome::Sent);
    // The snapshot's sunset is long past at the time of the cycle.
    let expected_text = "🐕 Afternoon walk time! Boris and Fiona are ready for their adventure. \
                         It's already dark, so take a light. 🔦";
    assert_eq!(
        asked,
        vec![
            Action::ReadClock,
            Action::ReadLastSent,
            Action::FetchHabit,
            Action::FetchWeather,
            Action::SendSms(expected_text.to_string()),
            Action::RecordSent("2025-10-19".to_string()),
            Action::Finish(Outcome::Sent),
        ]
    );
}

#[test]
fn reminder_already_sent_today_skips_without_sending_or_storing() {
    let (asked, outcome) = drive(
        THREE_THIRTY_PM,
        StoreRead::Found("2025-10-19".into()),
        Some(false),
        Ok(clear_sky()),
        201,
    );
    assert_eq!(outcome, Outcome::Skipped(SkipReason::AlreadySent));
    assert_eq!(SkipReason::AlreadySent.message(), "already sent");
    assert_eq!(
        asked,
        vec![
            Action::ReadClock,
            Action::ReadLastSent,
            Action::Finish(Outcome::Skipped(SkipReason::AlreadySent)),
        ]
    );
}

#[test]
fn reminder_sent_yesterday_does_not_block_today() {
    let (_, outcome) = drive(
        THREE_THIRTY_PM,
        StoreRead::Found("2025-10-18".into()),
        Some(false),
        Ok(clear_sky()),
        201,
    );
    assert_eq!(outcome, Outcome::Sent);
}

#[test]
fn unreadable_store_does_not_block_a_reminder() {
    let (_, outcome) =
        drive(THREE_THIRTY_PM, StoreRead::Unavailable, Some(false), Ok(clear_sky()), 201);
    assert_eq!(outcome, Outcome::Sent);
}

#[test]
fn hour_outside_window_skips_before_any_fetch() {
    let (asked, outcome) =
        drive(HALF_PAST_NOON, StoreRead::Missing, Some(false), Ok(clear_sky()), 201);
    assert_eq!(outcome, Outcome::Skipped(SkipReason::OutsideWindow));
    assert_eq!(SkipReason::OutsideWindow.message(), "outside window");
    assert_eq!(
        asked,
        vec![Action::ReadClock, Action::Finish(Outcome::Skipped(SkipReason::OutsideWindow))]
    );
}

#[test]
fn rain_vetoes_the_reminder_until_the_walk_is_done() {
    let (asked, outcome) = drive(FOUR_THIRTY_PM, StoreRead::Missing, Some(false), Ok(rainy()), 201);
    assert_eq!(outcome, Outcome::Skipped(SkipReason::UnsafeWeather));
    assert_eq!(SkipReason::UnsafeWeather.message(), "unsafe weather");
    assert_eq!(
        asked,
        vec![
            Action::ReadClock,
            Action::ReadLastSent,
            Action::FetchHabit,
            Action::FetchWeather,
            Action::Finish(Outcome::Skipped(SkipReason::UnsafeWeather)),
        ]
    );

    let (asked, outcome) = drive(FOUR_THIRTY_PM, StoreRead::Missing, Some(true), Ok(rainy()), 201);
    assert_eq!(outcome, Outcome::Sent);
    assert!(matches!(&asked[4], Action::SendSms(text) if text.contains("Great job")));
}

#[test]
fn failed_habit_fetch_counts_as_walk_not_done() {
    let (_, outcome) = drive(FOUR_THIRTY_PM, StoreRead::Missing, None, Ok(rainy()), 201);
    assert_eq!(outcome, Outcome::Skipped(SkipReason::UnsafeWeather));
    let (_, outcome) = drive(FOUR_THIRTY_PM, StoreRead::Missing, None, Ok(clear_sky()), 201);
    assert_eq!(outcome, Outcome::Sent);
}

#[test]
fn failed_weather_fetch_fails_the_cycle() {
    let why = "OpenWeather API error 401: bad key".to_string();
    let (asked, outcome) =
        drive(THREE_THIRTY_PM, StoreRead::Missing, Some(true), Err(why.clone()), 201);
    assert_eq!(outcome, Outcome::Failed(Failure::Weather(why.clone())));
    assert_eq!(asked.len(), 5);
    assert_eq!(Failure::Weather(why.clone()).message(), why);
    assert!(!outcome.reminded());
}

#[test]
fn refused_message_fails_the_cycle_and_stores_nothing() {
    let (asked, outcome) =
        drive(THREE_THIRTY_PM, StoreRead::Missing, Some(false), Ok(clear_sky()), 500);
    let why = "Twilio API error 500: {}".to_string();
    assert_eq!(outcome, Outcome::Failed(Failure::Gateway(why.clone())));
    assert_eq!(Failure::Gateway(why.clone()).message(), why);
    assert!(!asked.iter().any(|a| matches!(a, Action::RecordSent(_))));
    assert_eq!(asked.len(), 6);
}

#[test]
fn clock_beyond_the_calendar_fails_the_cycle() {
    let (asked, outcome) = drive(i64::MAX, StoreRead::Missing, Some(false), Ok(clear_sky()), 201);
    assert_eq!(outcome, Outcome::Failed(Failure::Clock));
    assert_eq!(asked.len(), 2);
    assert_eq!(Failure::Clock.message(), "the current time has no Eastern civil time");
}

#[test]
fn event_that_does_not_answer_the_action_fails_the_cycle() {
    let out_of_turn = Outcome::Failed(Failure::OutOfTurn);
    let expected = (Phase::Done, Action::Finish(out_of_turn.clone()));
    assert_eq!(step(Phase::TimeCheck, Event::Habit(Some(true))), expected);
    assert_eq!(
        step(Phase::RateCheck { now: THREE_THIRTY_PM, hour: 15 }, Event::Clock(0)),
        expected
    );
    assert_eq!(
        step(Phase::HabitGather { now: THREE_THIRTY_PM, hour: 15 }, Event::Recorded(true)),
        expected
    );
    assert_eq!(
        step(
            Phase::WeatherGather { now: THREE_THIRTY_PM, hour: 15, completed: false },
            Event::Delivery(Ok(()))
        ),
        expected
    );
    assert_eq!(
        step(Phase::Send { now: THREE_THIRTY_PM }, Event::LastSent(StoreRead::Missing)),
        expected
    );
    assert_eq!(step(Phase::Commit, Event::Clock(0)), expected);
    assert_eq!(step(Phase::Done, Event::Recorded(true)), expected);
    assert_eq!(
        Failure::OutOfTurn.message(),
        "the event does not answer the pending action"
    );
}

#[test]
fn failed_store_write_still_counts_as_sent() {
    assert_eq!(
        step(Phase::Commit, Event::Recorded(false)),
        (Phase::Done, Action::Finish(Outcome::Sent))
    );
    assert!(Outcome::Sent.reminded());
    assert!(!Outcome::Skipped(SkipReason::AlreadySent).reminded());
}
