//! Whitespace-aware text helpers: trimming and whitespace-delimited tokens.

use vstd::prelude::*;
use vstd::string::*;

verus! {

/// Does `c` have the Unicode `White_Space` property, as `char::is_whitespace`
/// answers?
pub open spec fn is_space(c: char) -> bool {
    ('\u{9}' <= c && c <= '\u{d}') || c == ' ' || c == '\u{85}' || c == '\u{a0}' || c == '\u{1680}'
        || ('\u{2000}' <= c && c <= '\u{200a}') || c == '\u{2028}' || c == '\u{2029}'
        || c == '\u{202f}' || c == '\u{205f}' || c == '\u{3000}'
}

/// Does `c` have the Unicode `White_Space` property?
pub fn char_is_space(c: char) -> (r: bool)
    ensures
        r == is_space(c),
{
    ('\u{9}' <= c && c <= '\u{d}') || c == ' ' || c == '\u{85}' || c == '\u{a0}' || c == '\u{1680}'
        || ('\u{2000}' <= c && c <= '\u{200a}') || c == '\u{2028}' || c == '\u{2029}'
        || c == '\u{202f}' || c == '\u{205f}' || c == '\u{3000}'
}

/// Does a token start at position `i` of `s`?
pub open spec fn token_starts_at(s: Seq<char>, i: int) -> bool {
    0 <= i < s.len() && !is_space(s[i]) && (i == 0 || is_space(s[i - 1]))
}

/// Number of maximal runs of non-whitespace characters in `s`.
pub open spec fn token_count(s: Seq<char>) -> nat
    decreases s.len(),
{
    if s.len() == 0 {
        0
    } else {
        token_count(s.drop_last()) + if token_starts_at(s, s.len() - 1) {
            1nat
        } else {
            0nat
        }
    }
}

/// Length of `s` without its trailing whitespace.
pub open spec fn end_trimmed_len(s: Seq<char>) -> nat
    decreases s.len(),
{
    if s.len() == 0 {
        0
    } else if is_space(s.last()) {
        end_trimmed_len(s.drop_last())
    } else {
        s.len()
    }
}

/// Index of the first character of `s` that is not whitespace (`s.len()` if none).
pub open spec fn start_trimmed_index(s: Seq<char>) -> nat
    decreases s.len(),
{
    if s.len() == 0 {
        0
    } else if is_space(s[0]) {
        1 + start_trimmed_index(s.drop_first())
    } else {
        0
    }
}

/// `s` without leading and trailing whitespace.
pub open spec fn trimmed(s: Seq<char>) -> Seq<char> {
    let e = end_trimmed_len(s);
    let b = start_trimmed_index(s.subrange(0, e as int));
    s.subrange(b as int, e as int)
}

/// Start index of the run of non-whitespace characters that ends at `e`.
pub open spec fn run_start(s: Seq<char>, e: int) -> int
    recommends
        0 <= e <= s.len(),
    decreases e,
{
    if e <= 0 || e > s.len() {
        0
    } else if is_space(s[e - 1]) {
        e
    } else {
        run_start(s, e - 1)
    }
}

/// The last whitespace-delimited token of `s`, if there is one.
pub open spec fn last_token_of(s: Seq<char>) -> Option<Seq<char>> {
    let e = end_trimmed_len(s) as int;
    if e == 0 {
        None
    } else {
        Some(s.subrange(run_start(s, e), e))
    }
}


/// Length of `s` without its trailing whitespace.
pub fn end_trimmed(s: &str) -> (e: usize)
    ensures
        e == end_trimmed_len(s@),
        e <= s@.len(),
{
    let n = s.unicode_len();
    let mut e: usize = n;
    assert(s@.subrange(0, n as int) =~= s@);
    while e > 0 && char_is_space(s.get_char(e - 1))
        invariant
            n == s@.len(),
            e <= n,
            end_trimmed_len(s@) == end_trimmed_len(s@.subrange(0, e as int)),
        decreases e,
    {
        assert(s@.subrange(0, e as int).drop_last() =~= s@.subrange(0, e - 1));
        e = e - 1;
    }
    e
}

/// Index of the first character of `s` that is not whitespace, or `s`'s length.
pub fn start_trimmed(s: &str) -> (b: usize)
    ensures
        b == start_trimmed_index(s@),
        b <= s@.len(),
{
    let n = s.unicode_len();
    let mut b: usize = 0;
    assert(s@.subrange(0, n as int) =~= s@);
    while b < n && char_is_space(s.get_char(b))
        invariant
            n == s@.len(),
            b <= n,
            start_trimmed_index(s@) == b + start_trimmed_index(s@.subrange(b as int, n as int)),
        decreases n - b,
    {
        assert(s@.subrange(b as int, n as int).drop_first() =~= s@.subrange(b + 1, n as int));
        b = b + 1;
    }
    b
}

/// `s` with leading and trailing whitespace removed.
pub fn trim(s: &str) -> (r: &str)
    ensures
        r@ == trimmed(s@),
{
    let e = end_trimmed(s);
    let head = s.substring_char(0, e);
    let b = start_trimmed(head);
    head.substring_char(b, e)
}

/// Number of whitespace-delimited tokens in `s`.
pub fn count_tokens(s: &str) -> (r: usize)
    ensures
        r == token_count(s@),
{
    let n = s.unicode_len();
    let mut i: usize = 0;
    let mut count: usize = 0;
    let mut prev_space = true;
    assert(s@.subrange(0, 0) =~= Seq::<char>::empty());
    while i < n
        invariant
            n == s@.len(),
            i <= n,
            count <= i,
            count == token_count(s@.subrange(0, i as int)),
            prev_space == (i == 0 || is_space(s@[i - 1])),
        decreases n - i,
    {
        let c = s.get_char(i);
        let sp = char_is_space(c);
        proof {
            let t = s@.subrange(0, i + 1);
            assert(t.drop_last() =~= s@.subrange(0, i as int));
            assert(token_starts_at(t, i as int) == token_starts_at(s@, i as int));
        }
        if !sp && prev_space {
            count = count + 1;
        }
        prev_space = sp;
        i = i + 1;
    }
    assert(s@.subrange(0, n as int) =~= s@);
    count
}

/// The last whitespace-delimited token of `s`, if any.
pub fn last_token(s: &str) -> (r: Option<&str>)
    ensures
        match r {
            Some(t) => last_token_of(s@) == Some(t@),
            None => last_token_of(s@) is None,
        },
{
    let e = end_trimmed(s);
    if e == 0 {
        return None;
    }
    let mut b: usize = e;
    while b > 0 && !char_is_space(s.get_char(b - 1))
        invariant
            e <= s@.len(),
            b <= e,
            run_start(s@, e as int) == run_start(s@, b as int),
        decreases b,
    {
        b = b - 1;
    }
    Some(s.substring_char(b, e))
}

} // verus!
