//! The once-a-day rate limit on reminders and the per-caller request
//! throttle. Both read a small key-value store and both fail open: a store
//! that cannot be read never blocks a reminder or a request.

use crate::text::{decimal_string, decimal_text, parse_decimal, parsed_decimal, same_text};
use vstd::prelude::*;

verus! {

/// Key under which the date of the last reminder is stored.
pub const LAST_REMINDER_KEY: &'static str = "last_reminder_date";

/// Start of the key under which a caller's last accepted request is stored.
pub const THROTTLE_KEY_START: &'static str = "rate_limit:";

/// Length of the request-throttle window, in seconds.
pub const THROTTLE_WINDOW_SECONDS: u64 = 3600;

/// What reading one key from the store gave.
#[derive(Debug, Clone, PartialEq)]
pub enum StoreRead {
    /// The key holds this value.
    Found(String),
    /// The key was never written.
    Missing,
    /// The store could not be read.
    Unavailable,
}

impl StoreRead {
    /// The value the caller goes on with: a missing key and an unreadable
    /// store both count as no value.
    pub open spec fn value(self) -> Option<Seq<char>> {
        match self {
            StoreRead::Found(s) => Some(s@),
            StoreRead::Missing => None,
            StoreRead::Unavailable => None,
        }
    }
}

/// Whether a reminder was already sent on `today`, given the stored date.
pub open spec fn sent_on(record: Option<Seq<char>>, today: Seq<char>) -> bool {
    record == Some(today)
}

/// The stored date after a check on `today`: a check stores nothing.
pub open spec fn checked(prior: Option<Seq<char>>, today: Seq<char>) -> Option<Seq<char>> {
    prior
}

/// The stored date after a reminder was sent on `today`, whatever was stored
/// before.
pub open spec fn marked(prior: Option<Seq<char>>, today: Seq<char>) -> Option<Seq<char>> {
    Some(today)
}

/// Check if a reminder already went out on `today`, from what the store
/// returned for the last-reminder key.
pub fn already_reminded_today(read: &StoreRead, today: &str) -> (res: bool)
    ensures
        res == sent_on(read.value(), today@),
{
    match read {
        StoreRead::Found(last) => same_text(last.as_str(), today),
        StoreRead::Missing => false,
        StoreRead::Unavailable => false,
    }
}

/// The rate-limit record: the date of the most recent reminder, if any.
#[derive(Debug, Clone, PartialEq)]
pub struct RateLimiter {
    last_sent: Option<String>,
}

impl View for RateLimiter {
    type V = Option<Seq<char>>;

    closed spec fn view(&self) -> Option<Seq<char>> {
        match self.last_sent {
            Some(s) => Some(s@),
            None => None,
        }
    }
}

impl RateLimiter {
    /// A record with no reminder sent yet.
    pub fn new() -> (res: RateLimiter)
        ensures
            res@ is None,
    {
        RateLimiter { last_sent: None }
    }

    /// The record as read from the store.
    pub fn from_read(read: StoreRead) -> (res: RateLimiter)
        ensures
            res@ == read.value(),
    {
        match read {
            StoreRead::Found(last) => RateLimiter { last_sent: Some(last) },
            StoreRead::Missing => RateLimiter { last_sent: None },
            StoreRead::Unavailable => RateLimiter { last_sent: None },
        }
    }

    /// Whether the record says a reminder went out on `today`. The record
    /// stays as it is.
    pub fn already_sent_today(&self, today: &str) -> (res: bool)
        ensures
            res == sent_on(self@, today@),
    {
        match &self.last_sent {
            Some(last) => same_text(last.as_str(), today),
            None => false,
        }
    }

    /// Records that a reminder went out on `today`, replacing any earlier
    /// date.
    pub fn mark_sent_now(&mut self, today: &str)
        ensures
            final(self)@ == marked(old(self)@, today@),
    {
        self.last_sent = Some(today.to_owned());
    }

    /// The stored date, if any.
    pub fn last_sent(&self) -> (res: Option<String>)
        ensures
            res is Some <==> self@ is Some,
            res matches Some(s) ==> self@ == Some(s@),
    {
        match &self.last_sent {
            Some(last) => Some(last.clone()),
            None => None,
        }
    }
}

/// After a reminder is marked on one day, a check on another day reports it
/// as sent exactly when the two days are the same: the same day blocks, any
/// other day allows.
pub proof fn lemma_mark_then_check(prior: Option<Seq<char>>, marked_on: Seq<char>, checked_on: Seq<
    char,
>)
    ensures
        sent_on(marked(prior, marked_on), checked_on) <==> marked_on == checked_on,
{
}

/// A check stores nothing, so checking again without a reminder in between
/// gives the same answer, however often it is repeated and whatever days
/// were asked about in between.
pub proof fn lemma_check_is_repeatable(
    record: Option<Seq<char>>,
    today: Seq<char>,
    other_day: Seq<char>,
)
    ensures
        checked(record, today) == record,
        sent_on(checked(record, today), today) == sent_on(record, today),
        sent_on(checked(checked(record, today), other_day), today) == sent_on(record, today),
{
}

/// With nothing stored, no day counts as sent.
pub proof fn lemma_nothing_sent_initially(today: Seq<char>)
    ensures
        !sent_on(None, today),
{
}

/// The store key of a caller's throttle record.
pub open spec fn throttle_key_text(caller_id: Seq<char>) -> Seq<char> {
    THROTTLE_KEY_START@ + caller_id
}

/// The store key of a caller's throttle record.
pub fn throttle_key(caller_id: &str) -> (res: String)
    ensures
        res@ == throttle_key_text(caller_id@),
{
    let mut key = THROTTLE_KEY_START.to_owned();
    key.append(caller_id);
    key
}

/// The time of the caller's last accepted request, if the store holds a
/// readable one.
pub open spec fn last_accepted(read: StoreRead) -> Option<u64> {
    match read.value() {
        Some(text) => parsed_decimal(text),
        None => None,
    }
}

/// A request at `now` falls in the window opened by the last accepted
/// request: at or after it, and less than an hour later.
pub open spec fn throttled(last: Option<u64>, now: u64) -> bool {
    match last {
        Some(t) => t <= now && now - t < THROTTLE_WINDOW_SECONDS,
        None => false,
    }
}

/// What the throttle decided for one request.
#[derive(Debug, Clone, PartialEq)]
pub enum ThrottleVerdict {
    /// The request goes on; the text is the record to store for the caller.
    Allow(String),
    /// The request is rejected; the caller's record stays as it is.
    Deny,
}

/// Decides whether a request at `now` (seconds since the Unix epoch) may
/// proceed, from what the store returned for the caller's throttle key.
///
/// A request is denied only when a readable record shows an accepted request
/// less than an hour before. A missing or unreadable record, or a store that
/// could not be read, allows the request.
pub fn check_request_throttle(read: &StoreRead, now: u64) -> (res: ThrottleVerdict)
    ensures
        throttled(last_accepted(*read), now) <==> res is Deny,
        res matches ThrottleVerdict::Allow(record) ==> record@ == decimal_text(now as nat),
{
    let last: Option<u64> = match read {
        StoreRead::Found(text) => parse_decimal(text.as_str()),
        StoreRead::Missing => None,
        StoreRead::Unavailable => None,
    };
    let deny: bool = match last {
        Some(t) => t <= now && now - t < THROTTLE_WINDOW_SECONDS,
        None => false,
    };
    if deny {
        ThrottleVerdict::Deny
    } else {
        ThrottleVerdict::Allow(decimal_string(now))
    }
}

/// Once a request is allowed and its record stored, further requests from
/// the same caller are denied for the next hour and allowed again after it.
pub proof fn lemma_throttle_window(accepted_at: u64, now: u64)
    requires
        accepted_at <= now,
    ensures
        throttled(parsed_decimal(decimal_text(accepted_at as nat)), now) <==> now - accepted_at
            < THROTTLE_WINDOW_SECONDS,
{
    crate::text::lemma_decimal_round_trip(accepted_at as nat);
}

} // verus!
