//! The string classifier: decides whether one string is potential
//! date/datetime text.

use vstd::prelude::*;
use crate::catalog::Catalog;
use crate::parsing::date_format_matches;
use crate::parsing::datetime_format_matches;
use crate::parsing::default_date_parses;
use crate::parsing::default_datetime_parses;

verus! {

/// No string of fewer characters than this is considered date-like.
pub const MIN_DATETIME_LEN: usize = 6;

/// Whether some pattern of `fmts` accepts `s` as a date-and-time value.
pub open spec fn matches_some_datetime_format(s: Seq<char>, fmts: Seq<Seq<char>>) -> bool {
    exists|i: int| 0 <= i < fmts.len() && datetime_format_matches(s, fmts[i])
}

/// Whether some pattern of `fmts` accepts `s` as a date-only value.
pub open spec fn matches_some_date_format(s: Seq<char>, fmts: Seq<Seq<char>>) -> bool {
    exists|i: int| 0 <= i < fmts.len() && date_format_matches(s, fmts[i])
}

/// Whether `s` counts as potential date/datetime text against `catalog`:
/// it is at least `MIN_DATETIME_LEN` characters long, and some datetime
/// pattern, some date pattern, or one of the two default parsers accepts it.
pub open spec fn spec_is_potential_datetime(s: Seq<char>, catalog: &Catalog) -> bool {
    &&& s.len() >= MIN_DATETIME_LEN
    &&& {
        ||| matches_some_datetime_format(s, catalog.datetime_pats())
        ||| matches_some_date_format(s, catalog.date_pats())
        ||| default_datetime_parses(s)
        ||| default_date_parses(s)
    }
}

/// Decide whether `s` is potential date/datetime text: too-short strings
/// are rejected outright; otherwise the datetime patterns are tried in
/// catalog order, then the date patterns, then the two default parsers,
/// short-circuiting on the first success.
pub fn is_potential_datetime_str(s: &str, catalog: &Catalog) -> (r: bool)
    ensures
        r == spec_is_potential_datetime(s@, catalog),
{
    if s.unicode_len() < MIN_DATETIME_LEN {
        return false;
    }
    let mut i: usize = 0;
    while i < catalog.datetime_patterns.len()
        invariant
            i <= catalog.datetime_pats().len(),
            s@.len() >= MIN_DATETIME_LEN,
            forall|k: int| 0 <= k < i ==> !datetime_format_matches(s@, catalog.datetime_pats()[k]),
        decreases catalog.datetime_pats().len() - i,
    {
        if crate::parsing::try_datetime_format(s, catalog.datetime_patterns[i].as_str()) {
            proof {
                assert(datetime_format_matches(s@, catalog.datetime_pats()[i as int]));
            }
            return true;
        }
        i = i + 1;
    }
    let mut j: usize = 0;
    while j < catalog.date_patterns.len()
        invariant
            j <= catalog.date_pats().len(),
            s@.len() >= MIN_DATETIME_LEN,
            !matches_some_datetime_format(s@, catalog.datetime_pats()),
            forall|k: int| 0 <= k < j ==> !date_format_matches(s@, catalog.date_pats()[k]),
        decreases catalog.date_pats().len() - j,
    {
        if crate::parsing::try_date_format(s, catalog.date_patterns[j].as_str()) {
            proof {
                assert(date_format_matches(s@, catalog.date_pats()[j as int]));
            }
            return true;
        }
        j = j + 1;
    }
    if crate::parsing::try_default_datetime(s) {
        return true;
    }
    if crate::parsing::try_default_date(s) {
        return true;
    }
    false
}

/// Strings shorter than `MIN_DATETIME_LEN` characters are never classified
/// as date-like, whatever the catalog holds.
pub proof fn lemma_short_string_never_datetime(s: Seq<char>, catalog: &Catalog)
    requires
        s.len() < MIN_DATETIME_LEN,
    ensures
        !spec_is_potential_datetime(s, catalog),
{
}

} // verus!
