//! The rules of the HTTP boundary: which requests are routed where, which
//! are turned away before a cycle runs, and what a cycle's outcome looks like
//! to the caller.

use crate::reminder::{Outcome, OutcomeView};
use crate::text::same_text;
use crate::time::{in_walk_window, is_hour_in_walk_window, WALK_WINDOW_START};
use vstd::prelude::*;

verus! {

/// Largest request body, in bytes, that the check endpoint accepts.
pub const MAX_BODY_BYTES: usize = 1024;

/// Start of an `Authorization` header that carries a bearer token.
pub const BEARER_START: &'static str = "Bearer ";

/// Where a request goes.
#[derive(Debug, Clone, Copy, PartialEq, Eq, Structural)]
pub enum Route {
    /// `POST /check`: run one reminder cycle.
    Check,
    /// `GET /health`: liveness probe.
    Health,
    /// Anything else.
    NotFound,
}

/// The route of a request, by method and path.
pub open spec fn route_of(method: Seq<char>, path: Seq<char>) -> Route {
    if method == "POST"@ && path == "/check"@ {
        Route::Check
    } else if method == "GET"@ && path == "/health"@ {
        Route::Health
    } else {
        Route::NotFound
    }
}

/// Routes a request by its method and path.
pub fn route(method: &str, path: &str) -> (res: Route)
    ensures
        res == route_of(method@, path@),
{
    if same_text(method, "POST") && same_text(path, "/check") {
        Route::Check
    } else if same_text(method, "GET") && same_text(path, "/health") {
        Route::Health
    } else {
        Route::NotFound
    }
}

/// Whether a check request may run a cycle, and if not, why.
#[derive(Debug, Clone, Copy, PartialEq, Eq, Structural)]
pub enum Admission {
    Accepted,
    /// The bearer token is absent or wrong.
    Unauthorized,
    /// The caller was already served within the last hour.
    Throttled,
    /// The request body is too large.
    TooLarge,
}

/// The header value that authorises a request under `secret`.
pub open spec fn bearer_text(secret: Seq<char>) -> Seq<char> {
    BEARER_START@ + secret
}

/// Whether an `Authorization` header carries the configured secret.
pub open spec fn is_authorized(header: Option<Seq<char>>, secret: Seq<char>) -> bool {
    header == Some(bearer_text(secret))
}

/// The admission rules in the order they apply: authorisation, then the
/// throttle, then the body size.
pub open spec fn admission_of(authorized: bool, throttled: bool, body_len: int) -> Admission {
    if !authorized {
        Admission::Unauthorized
    } else if throttled {
        Admission::Throttled
    } else if body_len > MAX_BODY_BYTES {
        Admission::TooLarge
    } else {
        Admission::Accepted
    }
}

/// The HTTP status that answers an admission verdict.
pub open spec fn admission_status(admission: Admission) -> int {
    match admission {
        Admission::Accepted => 200,
        Admission::Unauthorized => 401,
        Admission::Throttled => 429,
        Admission::TooLarge => 413,
    }
}

/// Whether `header`, the request's `Authorization` value if it has one, is
/// the bearer token for `secret`.
pub fn check_authorization(header: Option<&str>, secret: &str) -> (res: bool)
    ensures
        res == is_authorized(
            match header {
                Some(h) => Some(h@),
                None => None,
            },
            secret@,
        ),
{
    match header {
        Some(value) => {
            let mut expected = BEARER_START.to_owned();
            expected.append(secret);
            same_text(value, expected.as_str())
        },
        None => false,
    }
}

/// Applies the admission rules; the first that fails decides.
pub fn admission(authorized: bool, throttled: bool, body_len: usize) -> (res: Admission)
    ensures
        res == admission_of(authorized, throttled, body_len as int),
{
    if !authorized {
        Admission::Unauthorized
    } else if throttled {
        Admission::Throttled
    } else if body_len > MAX_BODY_BYTES {
        Admission::TooLarge
    } else {
        Admission::Accepted
    }
}

/// The HTTP status that answers an admission verdict.
pub fn status_for(admission: Admission) -> (res: u16)
    ensures
        res == admission_status(admission),
{
    match admission {
        Admission::Accepted => 200,
        Admission::Unauthorized => 401,
        Admission::Throttled => 429,
        Admission::TooLarge => 413,
    }
}

/// What the check endpoint answers after a cycle.
#[derive(Debug, Clone, PartialEq)]
pub struct CheckReply {
    /// HTTP status: 200 after a completed cycle, 500 after a failed one.
    pub code: u16,
    /// Whether a reminder went out.
    pub reminded: bool,
    /// Why the cycle failed, when it did.
    pub error: Option<String>,
}

/// The reply for the outcome of a cycle: sent and skipped cycles are
/// successes that differ in `reminded`; a failed cycle is a server error
/// that carries the failure's text.
pub fn reply_for(outcome: &Outcome) -> (res: CheckReply)
    ensures
        res.reminded == (outcome@ is Sent),
        res.code == (if outcome@ is Failed {
            500int
        } else {
            200int
        }),
        outcome@ is Failed <==> res.error is Some,
        res.error matches Some(e) ==> e@ == outcome@->Failed_0.text(),
{
    match outcome {
        Outcome::Sent => CheckReply { code: 200, reminded: true, error: None },
        Outcome::Skipped(_) => CheckReply { code: 200, reminded: false, error: None },
        Outcome::Failed(failure) => CheckReply {
            code: 500,
            reminded: false,
            error: Some(failure.message()),
        },
    }
}

/// What the status page suggests doing next.
#[derive(Debug, Clone, Copy, PartialEq, Eq, Structural)]
pub enum NextAction {
    /// Outside the window: wait this many hours for it to open.
    Wait(u8),
    /// Today's reminder already went out.
    Done,
    /// A reminder is due.
    SendSms,
}

/// Whole hours from `hour` until the window next opens: later today before
/// it opens, tomorrow afterwards.
pub open spec fn hours_until_window(hour: int) -> int {
    if hour < WALK_WINDOW_START {
        WALK_WINDOW_START - hour
    } else {
        24 - hour + WALK_WINDOW_START
    }
}

/// What to do next at `hour`, given whether today's reminder went out.
pub open spec fn next_action_of(hour: int, already_reminded: bool) -> NextAction {
    if !in_walk_window(hour) {
        NextAction::Wait(hours_until_window(hour) as u8)
    } else if already_reminded {
        NextAction::Done
    } else {
        NextAction::SendSms
    }
}

/// What the status page suggests at `hour` (0 to 23, Eastern).
pub fn next_action(hour: u8, already_reminded: bool) -> (res: NextAction)
    requires
        hour <= 23,
    ensures
        res == next_action_of(hour as int, already_reminded),
        res matches NextAction::Wait(hours) ==> 1 <= hours <= 19,
{
    if !is_hour_in_walk_window(hour) {
        if hour < WALK_WINDOW_START {
            NextAction::Wait(WALK_WINDOW_START - hour)
        } else {
            NextAction::Wait(24 - hour + WALK_WINDOW_START)
        }
    } else if already_reminded {
        NextAction::Done
    } else {
        NextAction::SendSms
    }
}

/// The error text for a configuration variable that is not set:
/// `Missing <name> variable`.
pub open spec fn missing_variable_text(name: Seq<char>) -> Seq<char> {
    "Missing "@ + name + " variable"@
}

/// Describes a configuration variable that is not set.
pub fn missing_variable(name: &str) -> (res: String)
    ensures
        res@ == missing_variable_text(name@),
{
    let mut text = "Missing ".to_owned();
    text.append(name);
    text.append(" variable");
    text
}

} // verus!
