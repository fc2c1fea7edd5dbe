//! Text as the device files hold it: white space, trimming and comparison.

use vstd::prelude::*;
use vstd::utf8::{encode_utf8, encode_utf8_decode_utf8};

verus! {

/// Whether `c` is white space as Unicode has it (`White_Space`).
pub open spec fn white_space(c: char) -> bool {
    ||| '\u{9}' <= c <= '\u{d}'
    ||| c == ' '
    ||| c == '\u{85}'
    ||| c == '\u{a0}'
    ||| c == '\u{1680}'
    ||| '\u{2000}' <= c <= '\u{200a}'
    ||| c == '\u{2028}'
    ||| c == '\u{2029}'
    ||| c == '\u{202f}'
    ||| c == '\u{205f}'
    ||| c == '\u{3000}'
}

/// `s` without the white space it begins with.
pub open spec fn trim_start(s: Seq<char>) -> Seq<char>
    decreases s.len(),
{
    if s.len() > 0 && white_space(s.first()) {
        trim_start(s.drop_first())
    } else {
        s
    }
}

/// `s` without the white space it ends with.
pub open spec fn trim_end(s: Seq<char>) -> Seq<char>
    decreases s.len(),
{
    if s.len() > 0 && white_space(s.last()) {
        trim_end(s.drop_last())
    } else {
        s
    }
}

/// `s` without the white space at either end.
pub open spec fn trimmed(s: Seq<char>) -> Seq<char> {
    trim_end(trim_start(s))
}

/// Whether `s[start..end]` is what trimming leaves of `s`: all before `start`
/// and all from `end` on is white space, and the piece between them neither
/// begins nor ends with white space.
pub open spec fn is_trim_range(s: Seq<char>, start: int, end: int) -> bool {
    &&& 0 <= start <= end <= s.len()
    &&& forall|i: int| 0 <= i < start ==> white_space(#[trigger] s[i])
    &&& forall|i: int| end <= i < s.len() ==> white_space(#[trigger] s[i])
    &&& start < end ==> !white_space(s[start]) && !white_space(s[end - 1])
}

/// Where `k` characters of white space stand before one that is none, or
/// before the end, `trim_start` removes exactly those `k`.
pub proof fn lemma_trim_start_skips(s: Seq<char>, k: int)
    requires
        0 <= k <= s.len(),
        forall|i: int| 0 <= i < k ==> white_space(#[trigger] s[i]),
        k < s.len() ==> !white_space(s[k]),
    ensures
        trim_start(s) == s.skip(k),
    decreases k,
{
    if k == 0 {
        assert(s.skip(0) == s);
    } else {
        let rest = s.drop_first();
        assert forall|i: int| 0 <= i < k - 1 implies white_space(#[trigger] rest[i]) by {
            assert(rest[i] == s[i + 1]);
        }
        lemma_trim_start_skips(rest, k - 1);
        assert(rest.skip(k - 1) == s.skip(k));
    }
}

/// Where only white space follows the first `k` characters, and the last of
/// those is none, `trim_end` keeps exactly those `k`.
pub proof fn lemma_trim_end_takes(s: Seq<char>, k: int)
    requires
        0 <= k <= s.len(),
        forall|i: int| k <= i < s.len() ==> white_space(#[trigger] s[i]),
        k > 0 ==> !white_space(s[k - 1]),
    ensures
        trim_end(s) == s.take(k),
    decreases s.len() - k,
{
    if k == s.len() {
        assert(s.take(k) == s);
    } else {
        let rest = s.drop_last();
        lemma_trim_end_takes(rest, k);
        assert(rest.take(k) == s.take(k));
    }
}

/// Trimming leaves the one piece of the text that white space surrounds and
/// that has none at its own ends.
pub proof fn lemma_trimmed_range(s: Seq<char>, start: int, end: int)
    requires
        is_trim_range(s, start, end),
    ensures
        trimmed(s) == s.subrange(start, end),
{
    if start == end {
        lemma_trim_start_skips(s, s.len() as int);
        assert(s.skip(s.len() as int) == s.subrange(start, end));
    } else {
        lemma_trim_start_skips(s, start);
        let rest = s.skip(start);
        lemma_trim_end_takes(rest, end - start);
        assert(rest.take(end - start) == s.subrange(start, end));
    }
}

/// A text has no more characters than its UTF-8 form has bytes.
pub proof fn lemma_chars_fit_bytes(s: Seq<char>)
    ensures
        s.len() <= encode_utf8(s).len(),
    decreases s.len(),
{
    if s.len() > 0 {
        lemma_chars_fit_bytes(s.drop_first());
    }
}

/// Tells whether a character is white space.
pub fn is_white_space(c: char) -> (yes: bool)
    ensures
        yes == white_space(c),
{
    ('\u{9}' <= c && c <= '\u{d}') || c == ' ' || c == '\u{85}' || c == '\u{a0}' || c == '\u{1680}'
        || ('\u{2000}' <= c && c <= '\u{200a}') || c == '\u{2028}' || c == '\u{2029}' || c
        == '\u{202f}' || c == '\u{205f}' || c == '\u{3000}'
}

/// Removes the white space at both ends of `s`.
pub fn trim(s: &str) -> (t: &str)
    ensures
        t@ == trimmed(s@),
        exists|start: int, end: int| #[trigger]
            is_trim_range(s@, start, end) && t@ == s@.subrange(start, end),
{
    let len: usize = s.as_bytes().len();
    proof {
        lemma_chars_fit_bytes(s@);
    }
    // `start..end` is what trimming leaves of the characters seen so far;
    // while all of them are white space, both stand behind the last one.
    let mut seen: usize = 0;
    let mut start: usize = 0;
    let mut end: usize = 0;
    for c in it: s.chars()
        invariant
            s@.len() <= len,
            it.seq() == s@,
            seen == it.index(),
            is_trim_range(s@.take(seen as int), start as int, end as int),
            start == end ==> end == seen,
    {
        proof {
            let before = s@.take(seen as int);
            let after = s@.take(seen as int + 1);
            assert(forall|i: int| 0 <= i < seen ==> before[i] == after[i]);
            assert(after[seen as int] == c);
        }
        if is_white_space(c) {
            if start == end {
                start = seen + 1;
                end = seen + 1;
            }
        } else {
            if start == end {
                start = seen;
            }
            end = seen + 1;
        }
        seen += 1;
    }
    proof {
        assert(s@.take(seen as int) == s@);
        lemma_trimmed_range(s@, start as int, end as int);
    }
    s.substring_char(start, end)
}

/// Tells whether two texts hold the same characters.
pub fn same_text(a: &str, b: &str) -> (same: bool)
    ensures
        same == (a@ == b@),
{
    let x = a.as_bytes();
    let y = b.as_bytes();
    proof {
        encode_utf8_decode_utf8(a@);
        encode_utf8_decode_utf8(b@);
    }
    if x.len() != y.len() {
        return false;
    }
    let mut i: usize = 0;
    while i < x.len()
        invariant
            i <= x.len(),
            x.len() == y.len(),
            x@ == encode_utf8(a@),
            y@ == encode_utf8(b@),
            x@.subrange(0, i as int) == y@.subrange(0, i as int),
        decreases x.len() - i,
    {
        if x[i] != y[i] {
            return false;
        }
        assert(x@.subrange(0, i as int + 1) == x@.subrange(0, i as int).push(x@[i as int]));
        assert(y@.subrange(0, i as int + 1) == y@.subrange(0, i as int).push(y@[i as int]));
        i += 1;
    }
    assert(x@ == x@.subrange(0, i as int));
    assert(y@ == y@.subrange(0, i as int));
    true
}

} // verus!
