//! Decides, for one invocation, whether a dog-walking reminder should be
//! texted: the hour must fall in the afternoon window, no reminder may have
//! gone out yet on the same Eastern calendar day, and bad weather vetoes the
//! reminder unless the walk was already logged.
//!
//! Every function here is verified. Calendar arithmetic, base64 and percent
//! encoding are taken from the crates that implement them, behind small
//! functions whose contracts are assumed rather than proved; each of those
//! says so in its documentation.

pub mod api;
pub mod beeminder;
pub mod daylight;
pub mod message;
pub mod rate_limit;
pub mod reminder;
pub mod sms;
pub mod text;
pub mod time;
pub mod weather;
