//! Instants, held as Unix seconds, and their text in UTC.

use vstd::prelude::*;

verus! {

/// The earliest instant, in Unix seconds, that the service formats: the start of a day
/// within chrono's range (a day after the earliest instant chrono can hold), so that every
/// instant from here on has a UTC date-time.
pub const MIN_UTC_TIMESTAMP: i64 = -8334601228800i64;

/// The latest instant, in Unix seconds, that a UTC date-time can hold.
pub const MAX_UTC_TIMESTAMP: i64 = 8210266876799i64;

/// The patterns the service writes dates with: a day as `2026-04-19`, a day as
/// `19/04/2026`, a minute as `19/04/2026 à 08:30`, and the latter followed by ` UTC`.
pub open spec fn is_date_pattern(pattern: Seq<char>) -> bool {
    ||| pattern == "%Y-%m-%d"@
    ||| pattern == "%d/%m/%Y"@
    ||| pattern == "%d/%m/%Y à %H:%M"@
    ||| pattern == "%d/%m/%Y à %H:%M UTC"@
}

/// What chrono writes with `pattern` for the UTC date-time at `secs` Unix seconds.
pub uninterp spec fn utc_text(secs: i64, pattern: Seq<char>) -> Seq<char>;

/// Calls chrono's `DateTime::<Utc>::from_timestamp(secs, 0)` and formats the result with
/// `pattern`. Claimed: the text is a function of `secs` and `pattern` alone;
/// `from_timestamp` gives a date-time for every instant in the range that `requires` admits,
/// and each admitted pattern is made of valid chrono specifiers and literal text, so the
/// formatting does not fail.
#[verifier::external_body]
pub(crate) fn format_utc(secs: i64, pattern: &str) -> (r: String)
    requires
        MIN_UTC_TIMESTAMP <= secs <= MAX_UTC_TIMESTAMP,
        is_date_pattern(pattern@),
    ensures
        r@ == utc_text(secs, pattern@),
{
    match chrono::DateTime::from_timestamp(secs, 0) {
        Some(d) => d.format(pattern).to_string(),
        None => String::new(),
    }
}

} // verus!
