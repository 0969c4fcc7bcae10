//! Trusted boundary to chrono's calendar parsers.
//!
//! The classifier only needs to know whether a parse attempt succeeds, so
//! each wrapper returns a `bool`. What each parser accepts is a function of
//! its string arguments alone; the result is therefore given a name that
//! contracts elsewhere in the crate can speak of.

use vstd::prelude::*;

verus! {

/// Whether chrono's `NaiveDateTime::parse_from_str` accepts the whole of `s`
/// under the format string `fmt`.
pub uninterp spec fn datetime_format_matches(s: Seq<char>, fmt: Seq<char>) -> bool;

/// Whether chrono's `NaiveDate::parse_from_str` accepts the whole of `s`
/// under the format string `fmt`.
pub uninterp spec fn date_format_matches(s: Seq<char>, fmt: Seq<char>) -> bool;

/// Whether chrono's default `NaiveDateTime` parser (its `FromStr` impl)
/// accepts the whole of `s`.
pub uninterp spec fn default_datetime_parses(s: Seq<char>) -> bool;

/// Whether chrono's default `NaiveDate` parser (its `FromStr` impl)
/// accepts the whole of `s`.
pub uninterp spec fn default_date_parses(s: Seq<char>) -> bool;

/// Relies on `chrono::NaiveDateTime::parse_from_str`: whether `s` parses as
/// a combined date-and-time value under `fmt` depends on `s` and `fmt` alone,
/// and a failed attempt is an `Err`, never a panic.
#[verifier::external_body]
pub(crate) fn try_datetime_format(s: &str, fmt: &str) -> (r: bool)
    ensures
        r == datetime_format_matches(s@, fmt@),
{
    chrono::NaiveDateTime::parse_from_str(s, fmt).is_ok()
}

/// Relies on `chrono::NaiveDate::parse_from_str`: whether `s` parses as a
/// date-only value under `fmt` depends on `s` and `fmt` alone, and a failed
/// attempt is an `Err`, never a panic.
#[verifier::external_body]
pub(crate) fn try_date_format(s: &str, fmt: &str) -> (r: bool)
    ensures
        r == date_format_matches(s@, fmt@),
{
    chrono::NaiveDate::parse_from_str(s, fmt).is_ok()
}

/// Relies on `<chrono::NaiveDateTime as FromStr>::from_str`: whether `s`
/// parses under chrono's default date-and-time conventions depends on `s`
/// alone, and a failed attempt is an `Err`, never a panic.
#[verifier::external_body]
pub(crate) fn try_default_datetime(s: &str) -> (r: bool)
    ensures
        r == default_datetime_parses(s@),
{
    s.parse::<chrono::NaiveDateTime>().is_ok()
}

/// Relies on `<chrono::NaiveDate as FromStr>::from_str`: whether `s` parses
/// under chrono's default date-only conventions depends on `s` alone, and a
/// failed attempt is an `Err`, never a panic.
#[verifier::external_body]
pub(crate) fn try_default_date(s: &str) -> (r: bool)
    ensures
        r == default_date_parses(s@),
{
    s.parse::<chrono::NaiveDate>().is_ok()
}

} // verus!
