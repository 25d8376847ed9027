//! The two places the library touches the wall clock: formatting a
//! Unix timestamp and reading the current local time. Both go through
//! chrono and are taken on trust.

use vstd::prelude::*;

verus! {

/// The `%Y-%m-%d %H:%M:%S` rendering, in UTC, of the moment `secs`
/// whole seconds plus `nanos` nanoseconds after the Unix epoch. The
/// rendering is a fixed function of the two numbers; it is left
/// without a definition and pinned down only by `format_unix`.
pub uninterp spec fn unix_time_text(secs: int, nanos: int) -> Seq<char>;

/// Relies on chrono's `DateTime::<Utc>::from_timestamp` and `format`:
/// renders the given moment in UTC as `%Y-%m-%d %H:%M:%S`. chrono
/// returns nothing only when the seconds lie outside its calendar
/// range or the nanoseconds are no valid fraction; its source shows
/// both cannot happen for the range stated below.
#[verifier::external_body]
pub fn format_unix(secs: i64, nanos: u32) -> (r: Option<String>)
    ensures
        r matches Some(t) ==> t@ == unix_time_text(secs as int, nanos as int),
        0 <= secs < 10_000_000_000i64 && nanos < 1_000_000_000 ==> r is Some,
{
    chrono::DateTime::from_timestamp(secs, nanos).map(
        |dt| dt.format("%Y-%m-%d %H:%M:%S").to_string(),
    )
}

/// Relies on chrono's `Local::now` and `format`: the current local
/// time as `%Y-%m-%d %H:%M:%S`. The result depends on the clock and
/// the machine's time zone, so nothing is promised of it.
#[verifier::external_body]
pub fn now_string() -> String {
    chrono::Local::now().format("%Y-%m-%d %H:%M:%S").to_string()
}

} // verus!
