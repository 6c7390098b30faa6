//! The reminder decision engine.
//!
//! One cycle is a short conversation between the engine and whatever drives
//! it. The engine names the next [`Action`]; the driver performs it and
//! reports the [`Event`] that came of it; [`step`] then names the next action,
//! until it says [`Action::Finish`]. The engine itself performs no input or
//! output, so every cycle is decided by the events alone.

use crate::message::{compose_message, composed_text};
use crate::rate_limit::{already_reminded_today, sent_on, StoreRead};
use crate::time::{
    date_eastern_at, eastern_date, eastern_hour, hour_eastern_at, in_walk_window,
    is_hour_in_walk_window,
};
use crate::weather::{safe_to_walk, weather_hazard, WeatherCondition, WeatherSnapshot};
use vstd::prelude::*;

verus! {

/// Why a cycle ended without a reminder.
#[derive(Debug, Clone, Copy, PartialEq, Eq, Structural)]
pub enum SkipReason {
    /// The hour is outside the reminder window.
    OutsideWindow,
    /// A reminder already went out today.
    AlreadySent,
    /// The weather is unsafe and the walk has not happened yet.
    UnsafeWeather,
}

impl SkipReason {
    /// The reason in words.
    pub open spec fn text(self) -> Seq<char> {
        match self {
            SkipReason::OutsideWindow => "outside window"@,
            SkipReason::AlreadySent => "already sent"@,
            SkipReason::UnsafeWeather => "unsafe weather"@,
        }
    }

    /// The reason in words.
    pub fn message(&self) -> (res: String)
        ensures
            res@ == self.text(),
    {
        match self {
            SkipReason::OutsideWindow => "outside window".to_owned(),
            SkipReason::AlreadySent => "already sent".to_owned(),
            SkipReason::UnsafeWeather => "unsafe weather".to_owned(),
        }
    }
}

/// Why a cycle failed.
#[derive(Debug, Clone, PartialEq)]
pub enum Failure {
    /// The clock reading has no Eastern civil time.
    Clock,
    /// The weather could not be fetched; the text says why.
    Weather(String),
    /// The gateway did not accept the message; the text says why.
    Gateway(String),
    /// The driver reported an event that does not answer the pending action.
    OutOfTurn,
}

/// A [`Failure`] as mathematical values.
pub enum FailureView {
    Clock,
    Weather(Seq<char>),
    Gateway(Seq<char>),
    OutOfTurn,
}

impl View for Failure {
    type V = FailureView;

    open spec fn view(&self) -> FailureView {
        match self {
            Failure::Clock => FailureView::Clock,
            Failure::Weather(e) => FailureView::Weather(e@),
            Failure::Gateway(e) => FailureView::Gateway(e@),
            Failure::OutOfTurn => FailureView::OutOfTurn,
        }
    }
}

impl FailureView {
    /// The failure in words.
    pub open spec fn text(self) -> Seq<char> {
        match self {
            FailureView::Clock => "the current time has no Eastern civil time"@,
            FailureView::Weather(e) => e,
            FailureView::Gateway(e) => e,
            FailureView::OutOfTurn => "the event does not answer the pending action"@,
        }
    }
}

impl Failure {
    /// The failure in words; upstream errors are passed on as they came.
    pub fn message(&self) -> (res: String)
        ensures
            res@ == self@.text(),
    {
        match self {
            Failure::Clock => "the current time has no Eastern civil time".to_owned(),
            Failure::Weather(e) => e.clone(),
            Failure::Gateway(e) => e.clone(),
            Failure::OutOfTurn => "the event does not answer the pending action".to_owned(),
        }
    }
}

/// How a cycle ended.
#[derive(Debug, Clone, PartialEq)]
pub enum Outcome {
    /// The reminder was accepted by the gateway.
    Sent,
    /// No reminder was due.
    Skipped(SkipReason),
    /// The cycle could not be completed.
    Failed(Failure),
}

/// An [`Outcome`] as mathematical values.
pub enum OutcomeView {
    Sent,
    Skipped(SkipReason),
    Failed(FailureView),
}

impl View for Outcome {
    type V = OutcomeView;

    open spec fn view(&self) -> OutcomeView {
        match self {
            Outcome::Sent => OutcomeView::Sent,
            Outcome::Skipped(r) => OutcomeView::Skipped(*r),
            Outcome::Failed(f) => OutcomeView::Failed(f@),
        }
    }
}

impl Outcome {
    /// Whether a reminder went out.
    pub fn reminded(&self) -> (res: bool)
        ensures
            res == (self@ is Sent),
    {
        match self {
            Outcome::Sent => true,
            Outcome::Skipped(_) => false,
            Outcome::Failed(_) => false,
        }
    }
}

/// What the engine asks its driver to do next.
#[derive(Debug, Clone, PartialEq)]
pub enum Action {
    /// Read the clock and report [`Event::Clock`].
    ReadClock,
    /// Read the last-reminder date from the store and report
    /// [`Event::LastSent`].
    ReadLastSent,
    /// Ask the habit service whether the walk was logged today and report
    /// [`Event::Habit`].
    FetchHabit,
    /// Fetch the current weather and report [`Event::Weather`].
    FetchWeather,
    /// Send this text through the gateway and report [`Event::Delivery`].
    SendSms(String),
    /// Store this date as the last-reminder date and report
    /// [`Event::Recorded`].
    RecordSent(String),
    /// The cycle is over.
    Finish(Outcome),
}

/// An [`Action`] as mathematical values.
pub enum ActionView {
    ReadClock,
    ReadLastSent,
    FetchHabit,
    FetchWeather,
    SendSms(Seq<char>),
    RecordSent(Seq<char>),
    Finish(OutcomeView),
}

impl View for Action {
    type V = ActionView;

    open spec fn view(&self) -> ActionView {
        match self {
            Action::ReadClock => ActionView::ReadClock,
            Action::ReadLastSent => ActionView::ReadLastSent,
            Action::FetchHabit => ActionView::FetchHabit,
            Action::FetchWeather => ActionView::FetchWeather,
            Action::SendSms(m) => ActionView::SendSms(m@),
            Action::RecordSent(d) => ActionView::RecordSent(d@),
            Action::Finish(o) => ActionView::Finish(o@),
        }
    }
}

/// What the driver reports back.
#[derive(Debug, PartialEq)]
pub enum Event {
    /// The clock reading, in seconds since the Unix epoch.
    Clock(i64),
    /// What the store returned for the last-reminder key.
    LastSent(StoreRead),
    /// Whether the walk was logged today; `None` when the habit service
    /// could not be asked.
    Habit(Option<bool>),
    /// The current weather, or why it could not be fetched.
    Weather(Result<WeatherCondition, String>),
    /// Whether the gateway accepted the message, or why not.
    Delivery(Result<(), String>),
    /// Whether the store accepted the new last-reminder date.
    Recorded(bool),
}

/// An [`Event`] as mathematical values.
pub enum EventView {
    Clock(i64),
    LastSent(Option<Seq<char>>),
    Habit(Option<bool>),
    Weather(Result<WeatherSnapshot, Seq<char>>),
    Delivery(Result<(), Seq<char>>),
    Recorded(bool),
}

/// A weather report as mathematical values.
pub open spec fn report_view(report: Result<WeatherCondition, String>) -> Result<
    WeatherSnapshot,
    Seq<char>,
> {
    match report {
        Ok(w) => Ok(w@),
        Err(e) => Err(e@),
    }
}

/// A gateway answer as mathematical values.
pub open spec fn delivery_view(result: Result<(), String>) -> Result<(), Seq<char>> {
    match result {
        Ok(_) => Ok(()),
        Err(e) => Err(e@),
    }
}

impl View for Event {
    type V = EventView;

    open spec fn view(&self) -> EventView {
        match self {
            Event::Clock(now) => EventView::Clock(*now),
            Event::LastSent(read) => EventView::LastSent(read.value()),
            Event::Habit(h) => EventView::Habit(*h),
            Event::Weather(report) => EventView::Weather(report_view(*report)),
            Event::Delivery(result) => EventView::Delivery(delivery_view(*result)),
            Event::Recorded(ok) => EventView::Recorded(*ok),
        }
    }
}

/// Where a cycle stands: which answer the engine is waiting for, and what
/// it has learned so far.
#[derive(Debug, Clone, Copy, PartialEq, Eq, Structural)]
pub enum Phase {
    /// Waiting for the clock.
    TimeCheck,
    /// The hour is eligible; waiting for the last-reminder date.
    RateCheck { now: i64, hour: u8 },
    /// No reminder went out today; waiting for the habit signal.
    HabitGather { now: i64, hour: u8 },
    /// Waiting for the weather.
    WeatherGather { now: i64, hour: u8, completed: bool },
    /// The message was handed over; waiting for the gateway.
    Send { now: i64 },
    /// The message went out; waiting for the store.
    Commit,
    /// The cycle is over.
    Done,
}

/// The habit signal is advisory: when it could not be fetched, the walk
/// counts as not yet done.
pub open spec fn habit_or_default(habit: Option<bool>) -> bool {
    match habit {
        Some(done) => done,
        None => false,
    }
}

/// The gates of a cycle in the order they are checked: the time window, the
/// daily rate limit, and the weather, which vetoes only while the walk has
/// not happened. `None` means the reminder is due.
pub open spec fn first_closed_gate(
    hour: int,
    already_sent: bool,
    completed: bool,
    weather_safe: bool,
) -> Option<SkipReason> {
    if !in_walk_window(hour) {
        Some(SkipReason::OutsideWindow)
    } else if already_sent {
        Some(SkipReason::AlreadySent)
    } else if !weather_safe && !completed {
        Some(SkipReason::UnsafeWeather)
    } else {
        None
    }
}

/// Ends the cycle with `outcome`.
pub open spec fn finish(outcome: OutcomeView) -> (Phase, ActionView) {
    (Phase::Done, ActionView::Finish(outcome))
}

/// After the clock was read: outside the window the cycle ends at once.
pub open spec fn after_clock(now: i64) -> (Phase, ActionView) {
    match eastern_hour(now) {
        None => finish(OutcomeView::Failed(FailureView::Clock)),
        Some(hour) => if in_walk_window(hour as int) {
            (Phase::RateCheck { now, hour }, ActionView::ReadLastSent)
        } else {
            finish(OutcomeView::Skipped(SkipReason::OutsideWindow))
        },
    }
}

/// After the last-reminder date was read: a reminder sent today ends the
/// cycle.
pub open spec fn after_last_sent(now: i64, hour: u8, record: Option<Seq<char>>) -> (
    Phase,
    ActionView,
) {
    match eastern_date(now) {
        None => finish(OutcomeView::Failed(FailureView::Clock)),
        Some(today) => if sent_on(record, today) {
            finish(OutcomeView::Skipped(SkipReason::AlreadySent))
        } else {
            (Phase::HabitGather { now, hour }, ActionView::FetchHabit)
        },
    }
}

/// After the weather was fetched: a failed fetch fails the cycle, unsafe
/// weather ends it unless the walk already happened, and otherwise the
/// message is composed and handed over.
pub open spec fn after_weather(
    now: i64,
    hour: u8,
    completed: bool,
    report: Result<WeatherSnapshot, Seq<char>>,
) -> (Phase, ActionView) {
    match report {
        Err(e) => finish(OutcomeView::Failed(FailureView::Weather(e))),
        Ok(w) => if !safe_to_walk(w) && !completed {
            finish(OutcomeView::Skipped(SkipReason::UnsafeWeather))
        } else {
            (
                Phase::Send { now },
                ActionView::SendSms(composed_text(hour as int, w, completed, now as int)),
            )
        },
    }
}

/// After the gateway answered: a refusal fails the cycle with nothing
/// recorded; an accepted message is recorded under today's date.
pub open spec fn after_delivery(now: i64, result: Result<(), Seq<char>>) -> (Phase, ActionView) {
    match result {
        Err(e) => finish(OutcomeView::Failed(FailureView::Gateway(e))),
        Ok(_) => match eastern_date(now) {
            Some(today) => (Phase::Commit, ActionView::RecordSent(today)),
            None => finish(OutcomeView::Sent),
        },
    }
}

/// The engine's transition: the next phase and the action to perform, from
/// the current phase and the event reported. An event that does not answer
/// the pending action fails the cycle.
pub open spec fn transition(phase: Phase, event: EventView) -> (Phase, ActionView) {
    match (phase, event) {
        (Phase::TimeCheck, EventView::Clock(now)) => after_clock(now),
        (Phase::RateCheck { now, hour }, EventView::LastSent(record)) => after_last_sent(
            now,
            hour,
            record,
        ),
        (Phase::HabitGather { now, hour }, EventView::Habit(habit)) => (
            Phase::WeatherGather { now, hour, completed: habit_or_default(habit) },
            ActionView::FetchWeather,
        ),
        (Phase::WeatherGather { now, hour, completed }, EventView::Weather(report)) => {
            after_weather(now, hour, completed, report)
        },
        (Phase::Send { now }, EventView::Delivery(result)) => after_delivery(now, result),
        (Phase::Commit, EventView::Recorded(_)) => finish(OutcomeView::Sent),
        _ => finish(OutcomeView::Failed(FailureView::OutOfTurn)),
    }
}

/// Which gate, if any, stops a reminder.
pub fn reminder_gate(
    hour: u8,
    already_sent: bool,
    completed: bool,
    weather_safe: bool,
) -> (res: Option<SkipReason>)
    ensures
        res == first_closed_gate(hour as int, already_sent, completed, weather_safe),
{
    if !is_hour_in_walk_window(hour) {
        Some(SkipReason::OutsideWindow)
    } else if already_sent {
        Some(SkipReason::AlreadySent)
    } else if !weather_safe && !completed {
        Some(SkipReason::UnsafeWeather)
    } else {
        None
    }
}

/// Begins a cycle: the first thing to do is to read the clock.
pub fn start() -> (res: (Phase, Action))
    ensures
        res.0 == Phase::TimeCheck,
        res.1@ == ActionView::ReadClock,
{
    (Phase::TimeCheck, Action::ReadClock)
}

/// The step that ends the cycle with `outcome`.
fn end_with(outcome: Outcome) -> (res: (Phase, Action))
    ensures
        (res.0, res.1@) == finish(outcome@),
{
    (Phase::Done, Action::Finish(outcome))
}

/// The step taken when the clock reading arrives.
fn on_clock(now: i64) -> (res: (Phase, Action))
    ensures
        (res.0, res.1@) == after_clock(now),
{
    match hour_eastern_at(now) {
        Err(_) => end_with(Outcome::Failed(Failure::Clock)),
        Ok(hour) => {
            if is_hour_in_walk_window(hour) {
                (Phase::RateCheck { now, hour }, Action::ReadLastSent)
            } else {
                end_with(Outcome::Skipped(SkipReason::OutsideWindow))
            }
        },
    }
}

/// The step taken when the last-reminder date arrives.
fn on_last_sent(now: i64, hour: u8, read: StoreRead) -> (res: (Phase, Action))
    ensures
        (res.0, res.1@) == after_last_sent(now, hour, read.value()),
{
    match date_eastern_at(now) {
        Err(_) => end_with(Outcome::Failed(Failure::Clock)),
        Ok(today) => {
            if already_reminded_today(&read, today.as_str()) {
                end_with(Outcome::Skipped(SkipReason::AlreadySent))
            } else {
                (Phase::HabitGather { now, hour }, Action::FetchHabit)
            }
        },
    }
}

/// The step taken when the weather report arrives.
fn on_weather(
    now: i64,
    hour: u8,
    completed: bool,
    report: Result<WeatherCondition, String>,
) -> (res: (Phase, Action))
    ensures
        (res.0, res.1@) == after_weather(now, hour, completed, report_view(report)),
{
    match report {
        Err(e) => end_with(Outcome::Failed(Failure::Weather(e))),
        Ok(weather) => {
            let safe: bool = weather_hazard(&weather).is_none();
            if !safe && !completed {
                end_with(Outcome::Skipped(SkipReason::UnsafeWeather))
            } else {
                let text = compose_message(hour, &weather, completed, now);
                (Phase::Send { now }, Action::SendSms(text))
            }
        },
    }
}

/// The step taken when the gateway's answer arrives.
fn on_delivery(now: i64, result: Result<(), String>) -> (res: (Phase, Action))
    ensures
        (res.0, res.1@) == after_delivery(now, delivery_view(result)),
{
    match result {
        Err(e) => end_with(Outcome::Failed(Failure::Gateway(e))),
        Ok(_) => match date_eastern_at(now) {
            Ok(today) => (Phase::Commit, Action::RecordSent(today)),
            Err(_) => end_with(Outcome::Sent),
        },
    }
}

/// Advances a cycle by one event: returns the next phase and the action the
/// driver must perform next.
pub fn step(phase: Phase, event: Event) -> (res: (Phase, Action))
    ensures
        (res.0, res.1@) == transition(phase, event@),
{
    match phase {
        Phase::TimeCheck => match event {
            Event::Clock(now) => on_clock(now),
            _ => end_with(Outcome::Failed(Failure::OutOfTurn)),
        },
        Phase::RateCheck { now, hour } => match event {
            Event::LastSent(read) => on_last_sent(now, hour, read),
            _ => end_with(Outcome::Failed(Failure::OutOfTurn)),
        },
        Phase::HabitGather { now, hour } => match event {
            Event::Habit(habit) => {
                let completed: bool = match habit {
                    Some(done) => done,
                    None => false,
                };
                (Phase::WeatherGather { now, hour, completed }, Action::FetchWeather)
            },
            _ => end_with(Outcome::Failed(Failure::OutOfTurn)),
        },
        Phase::WeatherGather { now, hour, completed } => match event {
            Event::Weather(report) => on_weather(now, hour, completed, report),
            _ => end_with(Outcome::Failed(Failure::OutOfTurn)),
        },
        Phase::Send { now } => match event {
            Event::Delivery(result) => on_delivery(now, result),
            _ => end_with(Outcome::Failed(Failure::OutOfTurn)),
        },
        Phase::Commit => match event {
            Event::Recorded(_) => end_with(Outcome::Sent),
            _ => end_with(Outcome::Failed(Failure::OutOfTurn)),
        },
        Phase::Done => end_with(Outcome::Failed(Failure::OutOfTurn)),
    }
}

/// The actions a cycle asks for after the first, in order, when the driver
/// reports `events`: one action per event, up to and including the first
/// [`ActionView::Finish`].
pub open spec fn actions_from(phase: Phase, events: Seq<EventView>) -> Seq<ActionView>
    decreases events.len(),
{
    if events.len() == 0 {
        Seq::<ActionView>::empty()
    } else {
        let (next, action) = transition(phase, events[0]);
        if action is Finish {
            seq![action]
        } else {
            seq![action] + actions_from(next, events.drop_first())
        }
    }
}

/// The events of a cycle pass every gate: the clock reads an eligible hour,
/// no reminder went out today, and the weather is safe or the walk already
/// happened.
pub open spec fn reminder_is_due(events: Seq<EventView>) -> bool {
    &&& events.len() >= 4
    &&& events[0] matches EventView::Clock(now)
    &&& eastern_hour(now) matches Some(hour)
    &&& eastern_date(now) matches Some(today)
    &&& events[1] matches EventView::LastSent(record)
    &&& events[2] matches EventView::Habit(habit)
    &&& events[3] matches EventView::Weather(Ok(w))
    &&& first_closed_gate(
        hour as int,
        sent_on(record, today),
        habit_or_default(habit),
        safe_to_walk(w),
    ) is None
}

/// The message that a due reminder carries.
pub open spec fn due_message(events: Seq<EventView>) -> Seq<char>
    recommends
        reminder_is_due(events),
{
    composed_text(
        eastern_hour(events[0]->Clock_0)->0 as int,
        events[3]->Weather_0->Ok_0,
        habit_or_default(events[2]->Habit_0),
        events[0]->Clock_0 as int,
    )
}

/// Outside the window the cycle ends on the clock reading alone: nothing is
/// fetched, sent or stored.
pub proof fn lemma_outside_window_ends_at_once(events: Seq<EventView>)
    requires
        events.len() >= 1,
        ({
            &&& events[0] matches EventView::Clock(now)
            &&& eastern_hour(now) matches Some(hour)
            &&& !in_walk_window(hour as int)
        }),
    ensures
        actions_from(Phase::TimeCheck, events) == seq![
            ActionView::Finish(OutcomeView::Skipped(SkipReason::OutsideWindow)),
        ],
{
}

/// When a reminder already went out today the cycle ends after reading the
/// store: no message is sent and nothing is stored.
pub proof fn lemma_already_sent_ends_after_store_read(events: Seq<EventView>)
    requires
        events.len() >= 2,
        ({
            &&& events[0] matches EventView::Clock(now)
            &&& eastern_hour(now) matches Some(hour)
            &&& in_walk_window(hour as int)
            &&& eastern_date(now) matches Some(today)
            &&& events[1] == EventView::LastSent(Some(today))
        }),
    ensures
        actions_from(Phase::TimeCheck, events) == seq![
            ActionView::ReadLastSent,
            ActionView::Finish(OutcomeView::Skipped(SkipReason::AlreadySent)),
        ],
{
    reveal_with_fuel(actions_from, 3);
    assert(actions_from(Phase::TimeCheck, events) =~= seq![
        ActionView::ReadLastSent,
        ActionView::Finish(OutcomeView::Skipped(SkipReason::AlreadySent)),
    ]);
}

/// Unsafe weather ends the cycle without a message while the walk has not
/// happened.
pub proof fn lemma_unsafe_weather_vetoes(events: Seq<EventView>)
    requires
        events.len() >= 4,
        ({
            &&& events[0] matches EventView::Clock(now)
            &&& eastern_hour(now) matches Some(hour)
            &&& in_walk_window(hour as int)
            &&& eastern_date(now) matches Some(today)
            &&& events[1] matches EventView::LastSent(record)
            &&& !sent_on(record, today)
            &&& events[2] matches EventView::Habit(habit)
            &&& !habit_or_default(habit)
            &&& events[3] matches EventView::Weather(Ok(w))
            &&& !safe_to_walk(w)
        }),
    ensures
        actions_from(Phase::TimeCheck, events) == seq![
            ActionView::ReadLastSent,
            ActionView::FetchHabit,
            ActionView::FetchWeather,
            ActionView::Finish(OutcomeView::Skipped(SkipReason::UnsafeWeather)),
        ],
{
    reveal_with_fuel(actions_from, 5);
    let rest1 = events.drop_first();
    let rest2 = rest1.drop_first();
    let rest3 = rest2.drop_first();
    assert(rest1[0] == events[1]);
    assert(rest2[0] == events[2]);
    assert(rest3[0] == events[3]);
    assert(actions_from(Phase::TimeCheck, events) =~= seq![
        ActionView::ReadLastSent,
        ActionView::FetchHabit,
        ActionView::FetchWeather,
        ActionView::Finish(OutcomeView::Skipped(SkipReason::UnsafeWeather)),
    ]);
}

/// When every gate is open the composed message is handed to the gateway as
/// the fourth action; a walk that already happened overrides unsafe weather.
pub proof fn lemma_due_reminder_is_sent(events: Seq<EventView>)
    requires
        reminder_is_due(events),
    ensures
        actions_from(Phase::TimeCheck, events).len() >= 4,
        actions_from(Phase::TimeCheck, events).take(4) == seq![
            ActionView::ReadLastSent,
            ActionView::FetchHabit,
            ActionView::FetchWeather,
            ActionView::SendSms(due_message(events)),
        ],
{
    reveal_with_fuel(actions_from, 5);
    let rest1 = events.drop_first();
    let rest2 = rest1.drop_first();
    let rest3 = rest2.drop_first();
    assert(rest1[0] == events[1]);
    assert(rest2[0] == events[2]);
    assert(rest3[0] == events[3]);
    assert(actions_from(Phase::TimeCheck, events).take(4) =~= seq![
        ActionView::ReadLastSent,
        ActionView::FetchHabit,
        ActionView::FetchWeather,
        ActionView::SendSms(due_message(events)),
    ]);
}

/// A due reminder that the gateway accepts is recorded under today's date,
/// and the cycle ends as sent whatever the store answers.
pub proof fn lemma_accepted_reminder_is_recorded(events: Seq<EventView>)
    requires
        reminder_is_due(events),
        events.len() >= 6,
        ({
            &&& events[4] matches EventView::Delivery(answer)
            &&& answer is Ok
        }),
        events[5] is Recorded,
    ensures
        actions_from(Phase::TimeCheck, events) == seq![
            ActionView::ReadLastSent,
            ActionView::FetchHabit,
            ActionView::FetchWeather,
            ActionView::SendSms(due_message(events)),
            ActionView::RecordSent(eastern_date(events[0]->Clock_0)->0),
            ActionView::Finish(OutcomeView::Sent),
        ],
{
    reveal_with_fuel(actions_from, 7);
    let rest1 = events.drop_first();
    let rest2 = rest1.drop_first();
    let rest3 = rest2.drop_first();
    let rest4 = rest3.drop_first();
    let rest5 = rest4.drop_first();
    assert(rest1[0] == events[1]);
    assert(rest2[0] == events[2]);
    assert(rest3[0] == events[3]);
    assert(rest4[0] == events[4]);
    assert(rest5[0] == events[5]);
    assert(actions_from(Phase::TimeCheck, events) =~= seq![
        ActionView::ReadLastSent,
        ActionView::FetchHabit,
        ActionView::FetchWeather,
        ActionView::SendSms(due_message(events)),
        ActionView::RecordSent(eastern_date(events[0]->Clock_0)->0),
        ActionView::Finish(OutcomeView::Sent),
    ]);
}

/// A refused message fails the cycle and nothing is stored.
pub proof fn lemma_refused_reminder_is_not_recorded(events: Seq<EventView>, why: Seq<char>)
    requires
        reminder_is_due(events),
        events.len() >= 5,
        events[4] == EventView::Delivery(Err(why)),
    ensures
        actions_from(Phase::TimeCheck, events) == seq![
            ActionView::ReadLastSent,
            ActionView::FetchHabit,
            ActionView::FetchWeather,
            ActionView::SendSms(due_message(events)),
            ActionView::Finish(OutcomeView::Failed(FailureView::Gateway(why))),
        ],
{
    reveal_with_fuel(actions_from, 6);
    let rest1 = events.drop_first();
    let rest2 = rest1.drop_first();
    let rest3 = rest2.drop_first();
    let rest4 = rest3.drop_first();
    assert(rest1[0] == events[1]);
    assert(rest2[0] == events[2]);
    assert(rest3[0] == events[3]);
    assert(rest4[0] == events[4]);
    assert(actions_from(Phase::TimeCheck, events) =~= seq![
        ActionView::ReadLastSent,
        ActionView::FetchHabit,
        ActionView::FetchWeather,
        ActionView::SendSms(due_message(events)),
        ActionView::Finish(OutcomeView::Failed(FailureView::Gateway(why))),
    ]);
}

/// A message is handed to the gateway only when every gate is open: whatever
/// the driver reports, a cycle that asks for a message to be sent has seen
/// an eligible hour, no reminder today, and weather that is safe or a walk
/// already done; and the message is the one composed from what it saw.
pub proof fn lemma_sms_only_when_due(events: Seq<EventView>, i: int)
    requires
        0 <= i < actions_from(Phase::TimeCheck, events).len(),
        actions_from(Phase::TimeCheck, events)[i] is SendSms,
    ensures
        i == 3,
        reminder_is_due(events),
        actions_from(Phase::TimeCheck, events)[i] == ActionView::SendSms(due_message(events)),
{
    reveal_with_fuel(actions_from, 7);
    let acts = actions_from(Phase::TimeCheck, events);
    let rest1 = events.drop_first();
    let rest2 = rest1.drop_first();
    let rest3 = rest2.drop_first();
    let rest4 = rest3.drop_first();
    let rest5 = rest4.drop_first();
    let rest6 = rest5.drop_first();
    if events.len() >= 2 {
        assert(rest1[0] == events[1]);
    }
    if events.len() >= 3 {
        assert(rest2[0] == events[2]);
    }
    if events.len() >= 4 {
        assert(rest3[0] == events[3]);
    }
    if events.len() >= 5 {
        assert(rest4[0] == events[4]);
    }
    if events.len() >= 6 {
        assert(rest5[0] == events[5]);
    }
    let (p1, a1) = transition(Phase::TimeCheck, events[0]);
    if a1 is Finish {
    } else {
        let (p2, a2) = transition(p1, rest1[0]);
        if rest1.len() == 0 || a2 is Finish {
        } else {
            let (p3, a3) = transition(p2, rest2[0]);
            if rest2.len() == 0 || a3 is Finish {
            } else {
                let (p4, a4) = transition(p3, rest3[0]);
                if rest3.len() == 0 || a4 is Finish {
                } else {
                    let (p5, a5) = transition(p4, rest4[0]);
                    if rest4.len() == 0 || a5 is Finish {
                    } else {
                        let (p6, a6) = transition(p5, rest5[0]);
                        assert(rest5.len() == 0 || a6 is Finish);
                        assert(actions_from(p6, rest6).len() == 0 || a6 is Finish);
                    }
                }
            }
        }
    }
}

/// The last-reminder date is stored only after the gateway accepted a due
/// reminder: whatever the driver reports, a cycle that asks for a date to be
/// stored has passed every gate and seen its message accepted, and the date
/// is today's.
pub proof fn lemma_record_only_after_delivery(events: Seq<EventView>, i: int)
    requires
        0 <= i < actions_from(Phase::TimeCheck, events).len(),
        actions_from(Phase::TimeCheck, events)[i] is RecordSent,
    ensures
        i == 4,
        reminder_is_due(events),
        events.len() >= 5,
        ({
            &&& events[4] matches EventView::Delivery(answer)
            &&& answer is Ok
        }),
        actions_from(Phase::TimeCheck, events)[i] == ActionView::RecordSent(
            eastern_date(events[0]->Clock_0)->0,
        ),
{
    reveal_with_fuel(actions_from, 7);
    let rest1 = events.drop_first();
    let rest2 = rest1.drop_first();
    let rest3 = rest2.drop_first();
    let rest4 = rest3.drop_first();
    let rest5 = rest4.drop_first();
    let rest6 = rest5.drop_first();
    if events.len() >= 2 {
        assert(rest1[0] == events[1]);
    }
    if events.len() >= 3 {
        assert(rest2[0] == events[2]);
    }
    if events.len() >= 4 {
        assert(rest3[0] == events[3]);
    }
    if events.len() >= 5 {
        assert(rest4[0] == events[4]);
    }
    if events.len() >= 6 {
        assert(rest5[0] == events[5]);
    }
    let (p1, a1) = transition(Phase::TimeCheck, events[0]);
    if a1 is Finish {
    } else {
        let (p2, a2) = transition(p1, rest1[0]);
        if rest1.len() == 0 || a2 is Finish {
        } else {
            let (p3, a3) = transition(p2, rest2[0]);
            if rest2.len() == 0 || a3 is Finish {
            } else {
                let (p4, a4) = transition(p3, rest3[0]);
                if rest3.len() == 0 || a4 is Finish {
                } else {
                    let (p5, a5) = transition(p4, rest4[0]);
                    if rest4.len() == 0 || a5 is Finish {
                    } else {
                        let (p6, a6) = transition(p5, rest5[0]);
                        assert(rest5.len() == 0 || a6 is Finish);
                        assert(actions_from(p6, rest6).len() == 0 || a6 is Finish);
                    }
                }
            }
        }
    }
}

/// A cycle asks for at most six actions after reading the clock, and its
/// last action is the only one that can finish it.
pub proof fn lemma_cycle_is_short(events: Seq<EventView>)
    ensures
        actions_from(Phase::TimeCheck, events).len() <= 6,
        actions_from(Phase::TimeCheck, events).len() <= events.len(),
        forall|i: int|
            0 <= i < actions_from(Phase::TimeCheck, events).len() - 1 ==> !(#[trigger] actions_from(
                Phase::TimeCheck,
                events,
            )[i] is Finish),
{
    reveal_with_fuel(actions_from, 8);
    let rest1 = events.drop_first();
    let rest2 = rest1.drop_first();
    let rest3 = rest2.drop_first();
    let rest4 = rest3.drop_first();
    let rest5 = rest4.drop_first();
    let rest6 = rest5.drop_first();
    if events.len() >= 1 {
        let (p1, a1) = transition(Phase::TimeCheck, events[0]);
        if !(a1 is Finish) && rest1.len() > 0 {
            let (p2, a2) = transition(p1, rest1[0]);
            if !(a2 is Finish) && rest2.len() > 0 {
                let (p3, a3) = transition(p2, rest2[0]);
                if !(a3 is Finish) && rest3.len() > 0 {
                    let (p4, a4) = transition(p3, rest3[0]);
                    if !(a4 is Finish) && rest4.len() > 0 {
                        let (p5, a5) = transition(p4, rest4[0]);
                        if !(a5 is Finish) && rest5.len() > 0 {
                            let (p6, a6) = transition(p5, rest5[0]);
                            assert(a6 is Finish);
                        }
                    }
                }
            }
        }
    }
}

} // verus!
