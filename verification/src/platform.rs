//! Trusted bindings to the host environment.
//!
//! Every function here is marked `external_body`: Verus believes the
//! stated contract without reading the body. Each doc comment names the
//! outside function relied on and what is assumed of it.

use vstd::prelude::*;

verus! {

/// Relies on chrono::Local::now for the current wall-clock instant.
/// Returns milliseconds since the Unix epoch together with the number of
/// non-leap seconds past the last local midnight; chrono documents the
/// latter as an integer in 0..=86399. The call aborts the process if the
/// system clock predates the Unix epoch — an environment fault this
/// crate does not guard against.
#[verifier::external_body]
pub(crate) fn clock_now_parts() -> (r: (i64, u32))
    ensures
        r.1 < 86400,
{
    let now = chrono::Local::now();
    (now.timestamp_millis(), chrono::Timelike::num_seconds_from_midnight(&now))
}

/// Relies on chrono's Datelike view of chrono::Local::now: today's local
/// calendar date, with the month in 1..=12 and the day of month in 1..=31.
#[verifier::external_body]
pub(crate) fn clock_today_ymd() -> (r: (i32, u32, u32))
    ensures
        1 <= r.1 <= 12,
        1 <= r.2 <= 31,
{
    let now = chrono::Local::now();
    (chrono::Datelike::year(&now), chrono::Datelike::month(&now), chrono::Datelike::day(&now))
}

/// Relies on uuid::Uuid::new_v4 and its hyphenated text form: a random
/// version-4 identifier rendered as exactly 36 characters. The call
/// aborts the process if the operating system's randomness source fails
/// — an environment fault this crate does not guard against.
#[verifier::external_body]
pub(crate) fn fresh_uuid() -> (r: String)
    ensures
        r@.len() == 36,
{
    uuid::Uuid::new_v4().to_string()
}

/// Relies on std's From<char> for String: a string holding exactly the
/// one given character. vstd gives this conversion no specification.
#[verifier::external_body]
pub(crate) fn char_to_string(c: char) -> (r: String)
    ensures
        r@ == seq![c],
{
    String::from(c)
}

/// Relies on dirs::data_local_dir: the platform's local data directory if
/// the environment defines one. Nothing is assumed of the returned path.
#[verifier::external_body]
pub(crate) fn data_local_dir_path() -> (r: Option<String>) {
    dirs::data_local_dir().map(|p| p.to_string_lossy().into_owned())
}

/// Relies on chrono: renders an epoch second as a local date and time in
/// the form year-month-day hour:minute:second. The text depends on the
/// machine's time zone, so nothing is assumed of it.
#[verifier::external_body]
pub(crate) fn format_epoch_full(secs: i64) -> (r: String) {
    match chrono::TimeZone::timestamp_opt(&chrono::Local, secs, 0) {
        chrono::LocalResult::Single(dt) => dt.format("%Y-%m-%d %H:%M:%S").to_string(),
        _ => String::new(),
    }
}

/// Relies on chrono: renders an epoch second as a local hour:minute pair.
/// The text depends on the machine's time zone, so nothing is assumed.
#[verifier::external_body]
pub(crate) fn format_epoch_hm(secs: i64) -> (r: String) {
    match chrono::TimeZone::timestamp_opt(&chrono::Local, secs, 0) {
        chrono::LocalResult::Single(dt) => dt.format("%H:%M").to_string(),
        _ => String::new(),
    }
}

/// Relies on chrono: renders an epoch second as a local month, day and
/// hour:minute. The text depends on the machine's time zone, so nothing
/// is assumed of it.
#[verifier::external_body]
pub(crate) fn format_epoch_md_hm(secs: i64) -> (r: String) {
    match chrono::TimeZone::timestamp_opt(&chrono::Local, secs, 0) {
        chrono::LocalResult::Single(dt) => dt.format("%m月%d日 %H:%M").to_string(),
        _ => String::new(),
    }
}

} // verus!
