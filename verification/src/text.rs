//! Whitespace handling for column values and pattern lines.

use vstd::prelude::*;

verus! {

/// The whitespace characters that trimming and blank detection recognize.
pub open spec fn is_space_char(c: char) -> bool {
    c == ' ' || c == '\t' || c == '\n' || c == '\r'
}

/// Index of the first character of `s` that is not whitespace
/// (`s.len()` when every character is whitespace).
pub open spec fn first_keep(s: Seq<char>) -> int
    decreases s.len(),
{
    if s.len() == 0 {
        0
    } else if !is_space_char(s[0]) {
        0
    } else {
        1 + first_keep(s.drop_first())
    }
}

/// One past the index of the last character of `s` that is not whitespace
/// (`0` when every character is whitespace).
pub open spec fn last_keep(s: Seq<char>) -> int
    decreases s.len(),
{
    if s.len() == 0 {
        0
    } else if !is_space_char(s[s.len() - 1]) {
        s.len() as int
    } else {
        last_keep(s.drop_last())
    }
}

/// `s` with leading and trailing whitespace removed.
pub open spec fn trimmed(s: Seq<char>) -> Seq<char> {
    if first_keep(s) < last_keep(s) {
        s.subrange(first_keep(s), last_keep(s))
    } else {
        Seq::empty()
    }
}

proof fn lemma_first_keep_at(s: Seq<char>, i: int)
    requires
        0 <= i <= s.len(),
        forall|k: int| 0 <= k < i ==> is_space_char(s[k]),
        i < s.len() ==> !is_space_char(s[i]),
    ensures
        first_keep(s) == i,
    decreases i,
{
    if i == 0 {
    } else {
        assert(is_space_char(s[0]));
        let t = s.drop_first();
        assert(forall|k: int| 0 <= k < i - 1 ==> s[k + 1] == t[k] && is_space_char(#[trigger] t[k]));
        if i - 1 < t.len() {
            assert(t[i - 1] == s[i]);
        }
        lemma_first_keep_at(t, i - 1);
    }
}

proof fn lemma_last_keep_at(s: Seq<char>, j: int)
    requires
        0 <= j <= s.len(),
        forall|k: int| j <= k < s.len() ==> is_space_char(s[k]),
        j > 0 ==> !is_space_char(s[j - 1]),
    ensures
        last_keep(s) == j,
    decreases s.len() - j,
{
    if j == s.len() {
    } else {
        assert(is_space_char(s[s.len() - 1]));
        let t = s.drop_last();
        assert(forall|k: int| j <= k < t.len() ==> t[k] == s[k] && is_space_char(#[trigger] t[k]));
        if j > 0 {
            assert(t[j - 1] == s[j - 1]);
        }
        lemma_last_keep_at(t, j);
    }
}

fn is_space(c: char) -> (b: bool)
    ensures
        b == is_space_char(c),
{
    c == ' ' || c == '\t' || c == '\n' || c == '\r'
}

/// Remove leading and trailing whitespace from `s`.
pub fn trim(s: &str) -> (r: &str)
    ensures
        r@ == trimmed(s@),
{
    let n = s.unicode_len();
    let mut lo: usize = 0;
    while lo < n && is_space(s.get_char(lo))
        invariant
            0 <= lo <= n,
            n == s@.len(),
            forall|k: int| 0 <= k < lo ==> is_space_char(s@[k]),
        decreases n - lo,
    {
        lo = lo + 1;
    }
    let mut hi: usize = n;
    while hi > lo && is_space(s.get_char(hi - 1))
        invariant
            lo <= hi <= n,
            n == s@.len(),
            forall|k: int| 0 <= k < lo ==> is_space_char(s@[k]),
            forall|k: int| hi <= k < n ==> is_space_char(s@[k]),
        decreases hi,
    {
        hi = hi - 1;
    }
    proof {
        if hi == lo {
            // every character of `s` is whitespace
            assert(forall|k: int| 0 <= k < s@.len() ==> is_space_char(s@[k]));
            lemma_first_keep_at(s@, s@.len() as int);
            lemma_last_keep_at(s@, 0);
        } else {
            assert(!is_space_char(s@[hi - 1]));
            assert(!is_space_char(s@[lo as int]));
            lemma_first_keep_at(s@, lo as int);
            lemma_last_keep_at(s@, hi as int);
        }
    }
    s.substring_char(lo, hi)
}

} // verus!
