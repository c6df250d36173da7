use vstd::prelude::*;

verus! {

/// Relies on chrono's `Local::now` and `DateTime::timestamp`: the system
/// clock as seconds since the Unix epoch.  Nothing is assumed of the value;
/// callers clamp it into range and the rest of the library is verified for
/// every reading.
#[verifier::external_body]
pub fn now_seconds() -> i64 {
    chrono::Local::now().timestamp()
}

/// Relies on chrono's `TimeZone::timestamp_opt` and `DateTime::format`: the
/// local civil date and time of an epoch instant, as `YYYY-MM-DD HH:MM`.
/// The text depends on the machine's time zone, so nothing is assumed of
/// it; an instant outside chrono's range yields the empty string.
#[verifier::external_body]
pub fn format_timestamp_minutes(ts: i64) -> String {
    match chrono::TimeZone::timestamp_opt(&chrono::Local, ts, 0).single() {
        Some(dt) => dt.format("%Y-%m-%d %H:%M").to_string(),
        None => String::new(),
    }
}

} // verus!
