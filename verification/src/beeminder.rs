//! The habit signal: goals tracked by the habit service, which of them are
//! urgent, and whether the walk was logged on a given day.

use crate::text::same_text;
use crate::time::{daystamp_utc_at, in_common_era, utc_daystamp, TimeError};
use vstd::prelude::*;

verus! {

/// The habit service address up to the user name.
pub const SERVICE_URL_START: &'static str = "https://www.beeminder.com/api/v1/users/";

/// How many recent datapoints are asked for when checking for today's walk.
pub const RECENT_DATAPOINTS: &'static str = "5";

/// A tracked goal, as the habit service reports it.
#[derive(Debug, Clone, PartialEq)]
pub struct Goal {
    pub slug: String,
    pub title: String,
    pub derail_risk: String,
}

/// One recorded event of a goal.
#[derive(Debug, Clone, PartialEq)]
pub struct Datapoint {
    /// Calendar day of the event, `YYYYMMDD`.
    pub daystamp: String,
    /// Recorded amount, in hundredths.
    pub value: i64,
    pub comment: String,
}

/// A derail risk that calls for attention: `WARNING` or `CRITICAL`.
pub open spec fn is_urgent_risk(risk: Seq<char>) -> bool {
    risk == "WARNING"@ || risk == "CRITICAL"@
}

/// A goal whose derail risk calls for attention.
pub open spec fn is_urgent(goal: Goal) -> bool {
    is_urgent_risk(goal.derail_risk@)
}

/// The urgent goals of a list, in the order given.
pub open spec fn urgent_goals(goals: Seq<Goal>) -> Seq<Goal> {
    goals.filter(|g: Goal| is_urgent(g))
}

/// The first urgent goal of a list, if there is one.
pub open spec fn first_urgent(goals: Seq<Goal>) -> Option<Goal> {
    if urgent_goals(goals).len() == 0 {
        None
    } else {
        Some(urgent_goals(goals)[0])
    }
}

/// Some datapoint of the list was recorded on `day`.
pub open spec fn logged_on(datapoints: Seq<Datapoint>, day: Seq<char>) -> bool {
    exists|i: int| 0 <= i < datapoints.len() && (#[trigger] datapoints[i]).daystamp@ == day
}

/// Whether a goal's derail risk is `WARNING` or `CRITICAL`.
pub fn goal_is_urgent(goal: &Goal) -> (res: bool)
    ensures
        res == is_urgent(*goal),
{
    let risk: &str = goal.derail_risk.as_str();
    same_text(risk, "WARNING") || same_text(risk, "CRITICAL")
}

/// Keeps the goals whose derail risk is `WARNING` or `CRITICAL`, in order.
pub fn filter_urgent_goals(goals: Vec<Goal>) -> (res: Vec<Goal>)
    ensures
        res@ == urgent_goals(goals@),
{
    let ghost all = goals@;
    let ghost urgent = |g: Goal| is_urgent(g);
    let mut kept: Vec<Goal> = Vec::new();
    proof {
        assert(all.take(0) =~= Seq::<Goal>::empty());
        reveal(Seq::filter);
    }
    for goal in it: goals
        invariant
            it.seq() == all,
            kept@ == all.take(it.index() as int).filter(urgent),
            urgent == (|g: Goal| is_urgent(g)),
    {
        proof {
            let i = it.index() as int;
            assert(all.take(i + 1) =~= all.take(i).push(goal));
            all.take(i).lemma_filter_push(goal, urgent);
        }
        if goal_is_urgent(&goal) {
            kept.push(goal);
        }
    }
    proof {
        assert(all.take(all.len() as int) =~= all);
    }
    kept
}

/// The first goal, in the order given, whose derail risk is `WARNING` or
/// `CRITICAL`.
pub fn pick_pivot_goal(goals: Vec<Goal>) -> (res: Option<Goal>)
    ensures
        res == first_urgent(goals@),
{
    let mut urgent = filter_urgent_goals(goals);
    if urgent.len() == 0 {
        None
    } else {
        Some(urgent.swap_remove(0))
    }
}

/// Whether any of the datapoints carries the day-stamp `today`.
pub fn walked_on(datapoints: &Vec<Datapoint>, today: &str) -> (res: bool)
    ensures
        res == logged_on(datapoints@, today@),
{
    let mut i: usize = 0;
    while i < datapoints.len()
        invariant
            i <= datapoints.len(),
            forall|j: int| 0 <= j < i ==> (#[trigger] datapoints@[j]).daystamp@ != today@,
        decreases datapoints.len() - i,
    {
        if same_text(datapoints[i].daystamp.as_str(), today) {
            return true;
        }
        i = i + 1;
    }
    false
}

/// The address of a goal's most recent datapoints.
pub open spec fn datapoints_url_text(
    username: Seq<char>,
    goal_slug: Seq<char>,
    api_key: Seq<char>,
) -> Seq<char> {
    SERVICE_URL_START@ + username + "/goals/"@ + goal_slug + "/datapoints.json?auth_token="@
        + api_key + "&count="@ + RECENT_DATAPOINTS@
}

/// The address of a user's goals.
pub open spec fn goals_url_text(username: Seq<char>, api_key: Seq<char>) -> Seq<char> {
    SERVICE_URL_START@ + username + "/goals.json?auth_token="@ + api_key
}

/// The address to fetch the most recent datapoints of `goal_slug` from.
pub fn datapoints_url(username: &str, goal_slug: &str, api_key: &str) -> (res: String)
    ensures
        res@ == datapoints_url_text(username@, goal_slug@, api_key@),
{
    let mut url = SERVICE_URL_START.to_owned();
    url.append(username);
    url.append("/goals/");
    url.append(goal_slug);
    url.append("/datapoints.json?auth_token=");
    url.append(api_key);
    url.append("&count=");
    url.append(RECENT_DATAPOINTS);
    url
}

/// The address to fetch all goals of `username` from.
pub fn goals_url(username: &str, api_key: &str) -> (res: String)
    ensures
        res@ == goals_url_text(username@, api_key@),
{
    let mut url = SERVICE_URL_START.to_owned();
    url.append(username);
    url.append("/goals.json?auth_token=");
    url.append(api_key);
    url
}

/// Whether the habit service answered with the one status it uses for
/// success.
pub fn is_ok_status(status: u16) -> (res: bool)
    ensures
        res == (status == 200),
{
    status == 200
}

/// Whether the walk was logged on the UTC day of a given instant.
pub open spec fn walked_today_result(datapoints: Seq<Datapoint>, now: i64) -> Result<
    bool,
    TimeError,
> {
    match utc_daystamp(now) {
        Some(day) => Ok(logged_on(datapoints, day)),
        None => Err(TimeError::OutOfRange),
    }
}

/// Whether any of the datapoints was recorded on the UTC calendar day that
/// holds `now` (seconds since the Unix epoch).
pub fn walked_today(datapoints: &Vec<Datapoint>, now: i64) -> (res: Result<bool, TimeError>)
    ensures
        res == walked_today_result(datapoints@, now),
        in_common_era(now) ==> res is Ok,
{
    match daystamp_utc_at(now) {
        Ok(today) => Ok(walked_on(datapoints, today.as_str())),
        Err(e) => Err(e),
    }
}

/// What the engine is told about the habit: the answer when there is one,
/// nothing when the service failed or the day could not be worked out.
pub fn habit_signal(answer: Option<Result<bool, TimeError>>) -> (res: Option<bool>)
    ensures
        res == match answer {
            Some(Ok(done)) => Some(done),
            _ => None,
        },
{
    match answer {
        Some(Ok(done)) => Some(done),
        _ => None,
    }
}

} // verus!
