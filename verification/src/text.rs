//! Whitespace trimming for the probed version strings.
//!
//! A tool probe captures output such as `"v22.1.0\n"`; the facade reports the
//! version with surrounding whitespace removed. The trimming is specified by
//! two recursive spec functions, one per end of the string, and the
//! executable function is proved against them.

use vstd::prelude::*;
use vstd::string::StrSliceExecFns;

verus! {

/// The whitespace characters that trimming removes: the Unicode White_Space
/// set.
pub open spec fn is_trim_char(c: char) -> bool {
    ('\u{0009}' <= c && c <= '\u{000d}') || c == ' ' || c == '\u{0085}' || c == '\u{00a0}' || c
        == '\u{1680}' || ('\u{2000}' <= c && c <= '\u{200a}') || c == '\u{2028}' || c == '\u{2029}'
        || c == '\u{202f}' || c == '\u{205f}' || c == '\u{3000}'
}

/// `s` without its leading whitespace characters.
pub open spec fn trim_leading(s: Seq<char>) -> Seq<char>
    decreases s.len(),
{
    if s.len() > 0 && is_trim_char(s[0]) {
        trim_leading(s.drop_first())
    } else {
        s
    }
}

/// `s` without its trailing whitespace characters.
pub open spec fn trim_trailing(s: Seq<char>) -> Seq<char>
    decreases s.len(),
{
    if s.len() > 0 && is_trim_char(s.last()) {
        trim_trailing(s.drop_last())
    } else {
        s
    }
}

/// `s` without leading and trailing whitespace characters.
pub open spec fn trim_spec(s: Seq<char>) -> Seq<char> {
    trim_leading(trim_trailing(s))
}

/// Whether `c` is one of the characters that trimming removes.
pub fn is_trimmable(c: char) -> (b: bool)
    ensures
        b == is_trim_char(c),
{
    ('\u{0009}' <= c && c <= '\u{000d}') || c == ' ' || c == '\u{0085}' || c == '\u{00a0}' || c
        == '\u{1680}' || ('\u{2000}' <= c && c <= '\u{200a}') || c == '\u{2028}' || c == '\u{2029}'
        || c == '\u{202f}' || c == '\u{205f}' || c == '\u{3000}'
}

/// Returns `s` without leading and trailing whitespace characters.
pub fn trim_whitespace(s: &str) -> (r: String)
    ensures
        r@ == trim_spec(s@),
{
    let n: usize = s.unicode_len();
    let mut end: usize = n;
    proof {
        assert(s@.subrange(0, n as int) =~= s@);
    }
    while end > 0 && is_trimmable(s.get_char(end - 1))
        invariant
            end <= n,
            n == s@.len(),
            trim_trailing(s@) == trim_trailing(s@.subrange(0, end as int)),
        decreases end,
    {
        proof {
            let pre = s@.subrange(0, end as int);
            assert(pre.last() == s@[end - 1]);
            assert(pre.drop_last() =~= s@.subrange(0, end - 1));
        }
        end = end - 1;
    }
    proof {
        let pre = s@.subrange(0, end as int);
        if end > 0 {
            assert(pre.last() == s@[end - 1]);
        }
        assert(trim_trailing(pre) == pre);
    }
    let mut start: usize = 0;
    while start < end && is_trimmable(s.get_char(start))
        invariant
            start <= end <= n,
            n == s@.len(),
            trim_trailing(s@) == s@.subrange(0, end as int),
            trim_leading(s@.subrange(0, end as int)) == trim_leading(
                s@.subrange(start as int, end as int),
            ),
        decreases end - start,
    {
        proof {
            let mid = s@.subrange(start as int, end as int);
            assert(mid[0] == s@[start as int]);
            assert(mid.drop_first() =~= s@.subrange(start + 1, end as int));
        }
        start = start + 1;
    }
    proof {
        let mid = s@.subrange(start as int, end as int);
        if start < end {
            assert(mid[0] == s@[start as int]);
        }
        assert(trim_leading(mid) == mid);
    }
    let t = s.substring_char(start, end);
    t.to_owned()
}

} // verus!
