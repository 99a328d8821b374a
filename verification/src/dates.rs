//! Rendering of UTC timestamps, which the pages show as dates and times.
//! Timestamps are whole seconds since 1970-01-01T00:00:00Z; the calendar
//! arithmetic and the rendering are chrono's.

use vstd::prelude::*;

verus! {

/// What chrono renders for the UTC instant `secs` seconds after the epoch
/// with the strftime-like `pattern`.
pub uninterp spec fn utc_format(secs: int, pattern: Seq<char>) -> Seq<char>;

/// The patterns the pages use: every one is made of specifiers chrono
/// supports, so rendering cannot fail.
pub open spec fn supported_pattern(p: Seq<char>) -> bool {
    ||| p == "%Y-%m-%d"@
    ||| p == "%Y-%m-%d %H:%M"@
    ||| p == "%m-%d %H:%M"@
    ||| p == "%H:%M:%S"@
}

/// Timestamps that certainly denote a date chrono represents (it covers
/// the years -262143 to 262142; this is about 253,000 years either side
/// of 1970).
pub open spec fn in_range(secs: int) -> bool {
    -8_000_000_000_000 <= secs <= 8_000_000_000_000
}

/// chrono: `DateTime::<Utc>::from_timestamp(secs, 0)`, then
/// `DateTime::format(pattern)` rendered with `to_string`. Claimed: the
/// text is a function of `secs` and `pattern` alone (UTC, no locale, no
/// clock), and `from_timestamp` fails only outside chrono's range, which
/// `in_range` lies within. What the text looks like is not stated.
#[verifier::external_body]
pub(crate) fn utc_text(secs: i64, pattern: &str) -> (r: Option<String>)
    requires
        supported_pattern(pattern@),
    ensures
        r matches Some(s) ==> s@ == utc_format(secs as int, pattern@),
        in_range(secs as int) ==> r is Some,
{
    match chrono::DateTime::<chrono::Utc>::from_timestamp(secs, 0) {
        Some(d) => Some(d.format(pattern).to_string()),
        None => None,
    }
}

/// `YYYY-MM-DD` of a timestamp.
pub fn date_text(secs: i64) -> (r: Option<String>)
    ensures
        r matches Some(s) ==> s@ == utc_format(secs as int, "%Y-%m-%d"@),
        in_range(secs as int) ==> r is Some,
{
    utc_text(secs, "%Y-%m-%d")
}

/// `YYYY-MM-DD HH:MM` of a timestamp.
pub fn date_minute_text(secs: i64) -> (r: Option<String>)
    ensures
        r matches Some(s) ==> s@ == utc_format(secs as int, "%Y-%m-%d %H:%M"@),
        in_range(secs as int) ==> r is Some,
{
    utc_text(secs, "%Y-%m-%d %H:%M")
}

/// `MM-DD HH:MM` of a timestamp.
pub fn month_day_minute_text(secs: i64) -> (r: Option<String>)
    ensures
        r matches Some(s) ==> s@ == utc_format(secs as int, "%m-%d %H:%M"@),
        in_range(secs as int) ==> r is Some,
{
    utc_text(secs, "%m-%d %H:%M")
}

/// `HH:MM:SS` of a timestamp.
pub fn time_of_day_text(secs: i64) -> (r: Option<String>)
    ensures
        r matches Some(s) ==> s@ == utc_format(secs as int, "%H:%M:%S"@),
        in_range(secs as int) ==> r is Some,
{
    utc_text(secs, "%H:%M:%S")
}

} // verus!
