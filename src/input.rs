//! What the operator types at the console: a move with an optional draw offer,
//! the resign command, a side, a menu choice.

use vstd::prelude::*;
use vstd::string::*;
use crate::side::Color;
use crate::text::{trim, trimmed};

verus! {

/// What accompanies a move typed by the operator.
#[derive(Clone, Copy, Debug, PartialEq, Eq, Structural)]
pub enum MoveOption {
    Draw,
    Resign,
}

/// Typed at the end of a move, offers a draw along with it.
pub const DRAW_SUFFIX: &'static str = "DRAW";

/// Typed alone, resigns the game.
pub const RESIGN_COMMAND: &'static str = "RESIGN";

/// Does `s` end with the draw suffix?
pub open spec fn ends_with_draw(s: Seq<char>) -> bool {
    s.len() >= 4 && s.subrange(s.len() - 4, s.len() as int) == DRAW_SUFFIX@
}

/// What a typed move line means: the trimmed line; a line that ends with the
/// draw suffix gives the text before the suffix and a draw offer; the resign
/// command alone gives the resign option.
pub open spec fn move_input_of(line: Seq<char>) -> (Seq<char>, Option<MoveOption>) {
    let t = trimmed(line);
    if ends_with_draw(t) {
        (t.subrange(0, t.len() - 4), Some(MoveOption::Draw))
    } else if t == RESIGN_COMMAND@ {
        (t, Some(MoveOption::Resign))
    } else {
        (t, None)
    }
}

/// Reads a line typed at the move prompt.
pub fn parse_move_input(line: &str) -> (r: (String, Option<MoveOption>))
    ensures
        r.0@ == move_input_of(line@).0,
        r.1 == move_input_of(line@).1,
{
    proof {
        reveal_strlit("DRAW");
        reveal_strlit("RESIGN");
    }
    let t = trim(line);
    let n = t.unicode_len();
    if n >= 4 {
        let tail = t.substring_char(n - 4, n);
        if str_equal(tail, DRAW_SUFFIX) {
            return (String::from_str(t.substring_char(0, n - 4)), Some(MoveOption::Draw));
        }
    }
    if str_equal(t, RESIGN_COMMAND) {
        (String::from_str(t), Some(MoveOption::Resign))
    } else {
        (String::from_str(t), None)
    }
}

/// Character-by-character equality of two strings.
pub fn str_equal(a: &str, b: &str) -> (r: bool)
    ensures
        r == (a@ == b@),
{
    let n = a.unicode_len();
    if n != b.unicode_len() {
        return false;
    }
    let mut i: usize = 0;
    while i < n
        invariant
            n == a@.len(),
            n == b@.len(),
            i <= n,
            forall|j: int| 0 <= j < i ==> a@[j] == b@[j],
        decreases n - i,
    {
        if a.get_char(i) != b.get_char(i) {
            return false;
        }
        i = i + 1;
    }
    assert(a@ =~= b@);
    true
}

/// The side a trimmed answer names: "W" for White, "B" for Black.
pub open spec fn side_of_answer(line: Seq<char>) -> Option<Color> {
    let t = trimmed(line);
    if t == seq!['W'] {
        Some(Color::White)
    } else if t == seq!['B'] {
        Some(Color::Black)
    } else {
        None
    }
}

/// Reads a line typed at the side prompt.
pub fn parse_side(line: &str) -> (r: Option<Color>)
    ensures
        r == side_of_answer(line@),
{
    proof {
        reveal_strlit("W");
        reveal_strlit("B");
    }
    assert("W"@ =~= seq!['W']);
    assert("B"@ =~= seq!['B']);
    let t = trim(line);
    if str_equal(t, "W") {
        Some(Color::White)
    } else if str_equal(t, "B") {
        Some(Color::Black)
    } else {
        None
    }
}

/// Is `c` an ASCII decimal digit?
pub open spec fn is_digit(c: char) -> bool {
    '0' <= c && c <= '9'
}

/// The value of a string of decimal digits.
pub open spec fn digits_value(s: Seq<char>) -> nat
    decreases s.len(),
{
    if s.len() == 0 {
        0
    } else {
        10 * digits_value(s.drop_last()) + (s.last() as nat - '0' as nat) as nat
    }
}

/// The digits of a decimal numeral, after an optional leading '+'.
pub open spec fn numeral_digits(s: Seq<char>) -> Seq<char> {
    if s.len() > 0 && s[0] == '+' {
        s.drop_first()
    } else {
        s
    }
}

/// The byte a decimal numeral names: an optional '+', then at least one
/// digit, for a value of at most 255.
pub open spec fn u8_of_numeral(s: Seq<char>) -> Option<u8> {
    let d = numeral_digits(s);
    if d.len() > 0 && (forall|i: int| 0 <= i < d.len() ==> is_digit(#[trigger] d[i]))
        && digits_value(d) <= 255 {
        Some(digits_value(d) as u8)
    } else {
        None
    }
}

proof fn lemma_digits_value_grows(s: Seq<char>)
    requires
        s.len() > 0,
        is_digit(s.last()),
    ensures
        digits_value(s) >= 10 * digits_value(s.drop_last()),
{
}

/// Reads a decimal byte, as `str::parse::<u8>` does.
pub fn parse_u8(s: &str) -> (r: Option<u8>)
    ensures
        r == u8_of_numeral(s@),
{
    let n = s.unicode_len();
    let mut i: usize = 0;
    if n > 0 && s.get_char(0) == '+' {
        i = 1;
    }
    let start = i;
    let ghost d = numeral_digits(s@);
    assert(d =~= s@.subrange(start as int, n as int));
    if start == n {
        return None;
    }
    let mut value: u32 = 0;
    while i < n
        invariant
            n == s@.len(),
            start <= i <= n,
            start < n,
            d == s@.subrange(start as int, n as int),
            d == numeral_digits(s@),
            forall|j: int| start <= j < i ==> is_digit(#[trigger] s@[j]),
            value <= 255 ==> value == digits_value(s@.subrange(start as int, i as int)),
            value > 255 ==> digits_value(s@.subrange(start as int, i as int)) > 255,
            value <= 256,
        decreases n - i,
    {
        let c = s.get_char(i);
        if !('0' <= c && c <= '9') {
            assert(!is_digit(d[i - start]));
            return None;
        }
        let ghost pre = s@.subrange(start as int, i as int);
        let ghost next = s@.subrange(start as int, i + 1);
        assert(next.drop_last() =~= pre);
        proof {
            lemma_digits_value_grows(next);
        }
        if value <= 255 {
            value = value * 10 + (c as u32 - '0' as u32);
            if value > 255 {
                value = 256;
            }
        }
        i = i + 1;
    }
    assert(s@.subrange(start as int, n as int) =~= d);
    assert forall|j: int| 0 <= j < d.len() implies is_digit(#[trigger] d[j]) by {
        assert(d[j] == s@[start + j]);
    }
    if value <= 255 {
        Some(value as u8)
    } else {
        None
    }
}


/// A line whose trimmed text ends with the draw suffix gives exactly the text
/// before the suffix, with a draw offer: the suffix is removed once, and
/// anything in front of it is kept as it is.
pub proof fn draw_suffix_stripped_once(line: Seq<char>, base: Seq<char>)
    requires
        trimmed(line) == base + DRAW_SUFFIX@,
    ensures
        move_input_of(line) == (base, Some(MoveOption::Draw)),
{
    reveal_strlit("DRAW");
    let t = trimmed(line);
    assert(t.subrange(t.len() - 4, t.len() as int) =~= DRAW_SUFFIX@);
    assert(t.subrange(0, t.len() - 4) =~= base);
}

/// The resign command typed alone is read as the resign option, never as a
/// plain move.
pub proof fn resign_line_resigns(line: Seq<char>)
    requires
        trimmed(line) == RESIGN_COMMAND@,
    ensures
        move_input_of(line).1 == Some(MoveOption::Resign),
{
    reveal_strlit("DRAW");
    reveal_strlit("RESIGN");
    let t = trimmed(line);
    assert(t.subrange(t.len() - 4, t.len() as int) != DRAW_SUFFIX@) by {
        assert(t.subrange(t.len() - 4, t.len() as int)[3] == 'N');
    }
}

} // verus!
