//! The current time, from the system clock.
use vstd::prelude::*;

verus! {

/// Relies on std's SystemTime::now, chrono's `From<SystemTime> for DateTime<Utc>` and
/// DateTime::timestamp_millis: the current UTC time as milliseconds since the Unix epoch.
/// chrono turns a clock reading before the epoch into a negative value rather than
/// failing; it handles any reading within its representable range (years -262143 to
/// 262142). Nothing is promised of the value.
#[verifier::external_body]
pub(crate) fn now_millis() -> (r: i64) {
    chrono::DateTime::<chrono::Utc>::from(std::time::SystemTime::now()).timestamp_millis()
}

} // verus!
