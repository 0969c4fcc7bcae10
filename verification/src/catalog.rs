//! The pattern catalog: the two ordered lists of format patterns that the
//! classifier tries, built once from bundled newline-delimited resources.

use vstd::prelude::*;
use crate::text::trimmed;

verus! {

/// The views of a sequence of owned strings.
pub open spec fn line_views(v: Seq<String>) -> Seq<Seq<char>> {
    v.map_values(|p: String| p@)
}

/// The views of a sequence of string slices.
pub open spec fn str_views(v: Seq<&str>) -> Seq<Seq<char>> {
    v.map_values(|t: &str| t@)
}

/// `s` split at every newline character. A text of `k` newlines yields
/// `k + 1` segments, so an empty text yields one empty segment and a
/// trailing newline yields a trailing empty segment.
pub open spec fn split_lines(s: Seq<char>) -> Seq<Seq<char>>
    decreases s.len(),
{
    if s.len() == 0 {
        seq![Seq::<char>::empty()]
    } else if s.last() == '\n' {
        split_lines(s.drop_last()).push(Seq::<char>::empty())
    } else {
        let rest = split_lines(s.drop_last());
        rest.update(rest.len() - 1, rest.last().push(s.last()))
    }
}

/// Each line trimmed of surrounding whitespace, blank lines discarded,
/// original order kept.
pub open spec fn kept_lines(lines: Seq<Seq<char>>) -> Seq<Seq<char>>
    decreases lines.len(),
{
    if lines.len() == 0 {
        Seq::empty()
    } else {
        let init = kept_lines(lines.drop_last());
        if trimmed(lines.last()).len() > 0 {
            init.push(trimmed(lines.last()))
        } else {
            init
        }
    }
}

/// The patterns held by a newline-delimited resource text: one pattern per
/// line, surrounding whitespace and blank lines discarded.
pub open spec fn pattern_lines(s: Seq<char>) -> Seq<Seq<char>> {
    kept_lines(split_lines(s))
}

/// Split `text` at every newline character.
fn split_text_lines(text: &str) -> (segs: Vec<&str>)
    ensures
        str_views(segs@) == split_lines(text@),
{
    let n = text.unicode_len();
    let mut segs: Vec<&str> = Vec::new();
    let mut start: usize = 0;
    let mut i: usize = 0;
    proof {
        assert(text@.subrange(0, 0) =~= Seq::<char>::empty());
        assert(str_views(segs@).push(text@.subrange(0, 0)) =~= seq![Seq::<char>::empty()]);
    }
    while i < n
        invariant
            start <= i <= n,
            n == text@.len(),
            split_lines(text@.subrange(0, i as int)) == str_views(segs@).push(
                text@.subrange(start as int, i as int),
            ),
        decreases n - i,
    {
        let ghost prefix = text@.subrange(0, i as int);
        let ghost next_prefix = text@.subrange(0, i + 1);
        proof {
            assert(next_prefix.drop_last() =~= prefix);
            assert(next_prefix.last() == text@[i as int]);
        }
        let c = text.get_char(i);
        if c == '\n' {
            let seg = text.substring_char(start, i);
            proof {
                assert(str_views(segs@.push(seg)) =~= str_views(segs@).push(seg@));
                assert(text@.subrange(i + 1, i + 1) =~= Seq::<char>::empty());
                assert(split_lines(next_prefix) =~= str_views(segs@.push(seg)).push(
                    text@.subrange(i + 1, i + 1),
                ));
            }
            segs.push(seg);
            start = i + 1;
        } else {
            proof {
                let rest = split_lines(prefix);
                let cur = text@.subrange(start as int, i as int);
                assert(rest == str_views(segs@).push(cur));
                assert(rest.len() == str_views(segs@).len() + 1);
                assert(rest.last() == cur);
                assert(cur.push(text@[i as int]) =~= text@.subrange(start as int, i + 1));
                assert(split_lines(next_prefix) =~= str_views(segs@).push(
                    text@.subrange(start as int, i + 1),
                ));
            }
        }
        i = i + 1;
    }
    let seg = text.substring_char(start, n);
    proof {
        assert(text@.subrange(0, n as int) =~= text@);
        assert(str_views(segs@.push(seg)) =~= str_views(segs@).push(seg@));
    }
    segs.push(seg);
    segs
}

/// Read a pattern list from a newline-delimited resource text: one pattern
/// per line, surrounding whitespace and blank lines discarded.
pub fn load_patterns(text: &str) -> (pats: Vec<String>)
    ensures
        line_views(pats@) == pattern_lines(text@),
{
    let segs = split_text_lines(text);
    let mut pats: Vec<String> = Vec::new();
    let mut j: usize = 0;
    proof {
        assert(str_views(segs@).subrange(0, 0) =~= Seq::<Seq<char>>::empty());
        assert(line_views(pats@) =~= kept_lines(str_views(segs@).subrange(0, 0)));
    }
    while j < segs.len()
        invariant
            j <= segs@.len(),
            str_views(segs@) == split_lines(text@),
            line_views(pats@) == kept_lines(str_views(segs@).subrange(0, j as int)),
        decreases segs@.len() - j,
    {
        let ghost prefix = str_views(segs@).subrange(0, j as int);
        let ghost next_prefix = str_views(segs@).subrange(0, j + 1);
        proof {
            assert(next_prefix.drop_last() =~= prefix);
            assert(next_prefix.last() == segs@[j as int]@);
        }
        let t = crate::text::trim(segs[j]);
        if !t.is_empty() {
            let pat = t.to_owned();
            proof {
                assert(line_views(pats@.push(pat)) =~= line_views(pats@).push(pat@));
            }
            pats.push(pat);
        }
        j = j + 1;
    }
    proof {
        assert(str_views(segs@).subrange(0, segs@.len() as int) =~= str_views(segs@));
    }
    pats
}

/// The bundled date-only pattern resource.
pub open spec fn date_pattern_source() -> Seq<char> {
    "%Y-%m-%d\n%Y/%m/%d\n%Y.%m.%d\n%d-%m-%Y\n%d/%m/%Y\n%d.%m.%Y\n%m/%d/%Y\n%d %b %Y\n%d %B %Y\n%b %d, %Y\n%B %d, %Y\n"@
}

/// The bundled date-and-time pattern resource.
pub open spec fn datetime_pattern_source() -> Seq<char> {
    "%Y-%m-%d %H:%M:%S\n%Y-%m-%dT%H:%M:%S\n%Y-%m-%d %H:%M\n%Y/%m/%d %H:%M:%S\n%d-%m-%Y %H:%M:%S\n%d/%m/%Y %H:%M:%S\n%m/%d/%Y %H:%M:%S\n%d %b %Y %H:%M:%S\n%m/%d/%Y %I:%M %p\n"@
}

fn date_pattern_text() -> (r: &'static str)
    ensures
        r@ == date_pattern_source(),
{
    "%Y-%m-%d\n%Y/%m/%d\n%Y.%m.%d\n%d-%m-%Y\n%d/%m/%Y\n%d.%m.%Y\n%m/%d/%Y\n%d %b %Y\n%d %B %Y\n%b %d, %Y\n%B %d, %Y\n"
}

fn datetime_pattern_text() -> (r: &'static str)
    ensures
        r@ == datetime_pattern_source(),
{
    "%Y-%m-%d %H:%M:%S\n%Y-%m-%dT%H:%M:%S\n%Y-%m-%d %H:%M\n%Y/%m/%d %H:%M:%S\n%d-%m-%Y %H:%M:%S\n%d/%m/%Y %H:%M:%S\n%m/%d/%Y %H:%M:%S\n%d %b %Y %H:%M:%S\n%m/%d/%Y %I:%M %p\n"
}

/// The two ordered pattern lists used by the classifier: immutable once
/// built, queried in catalog order with the first match winning.
pub struct Catalog {
    pub date_patterns: Vec<String>,
    pub datetime_patterns: Vec<String>,
}

impl Catalog {
    /// The date-only patterns, as character sequences.
    pub open spec fn date_pats(&self) -> Seq<Seq<char>> {
        line_views(self.date_patterns@)
    }

    /// The date-and-time patterns, as character sequences.
    pub open spec fn datetime_pats(&self) -> Seq<Seq<char>> {
        line_views(self.datetime_patterns@)
    }

    /// Build the catalog from the two bundled pattern resources.
    pub fn new() -> (c: Catalog)
        ensures
            c.date_pats() == pattern_lines(date_pattern_source()),
            c.datetime_pats() == pattern_lines(datetime_pattern_source()),
    {
        Catalog {
            date_patterns: load_patterns(date_pattern_text()),
            datetime_patterns: load_patterns(datetime_pattern_text()),
        }
    }
}

} // verus!
