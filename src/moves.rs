//! Squares and moves as plain values, and their coordinate text ("e2e4").

use vstd::prelude::*;
use vstd::string::*;

verus! {

/// A square of the board: `file` 0..8 is a..h, `rank` 0..8 is 1..8.
#[derive(Clone, Copy, Debug, PartialEq, Eq, Structural)]
pub struct Square {
    pub file: u8,
    pub rank: u8,
}

/// The piece a pawn turns into on the last rank.
#[derive(Clone, Copy, Debug, PartialEq, Eq, Structural)]
pub enum Promotion {
    Knight,
    Bishop,
    Rook,
    Queen,
}

/// A move from one square to another, with the piece a pawn turns into when it
/// reaches the last rank.
#[derive(Clone, Copy, Debug, PartialEq, Eq, Structural)]
pub struct Move {
    pub from: Square,
    pub to: Square,
    pub promotion: Option<Promotion>,
}

impl Square {
    /// Both coordinates lie on the board.
    pub open spec fn wf(self) -> bool {
        self.file < 8 && self.rank < 8
    }
}

impl Move {
    /// Both squares lie on the board.
    pub open spec fn wf(self) -> bool {
        self.from.wf() && self.to.wf()
    }

    /// Do both squares lie on the board?
    pub fn is_on_board(&self) -> (r: bool)
        ensures
            r == self.wf(),
    {
        self.from.file < 8 && self.from.rank < 8 && self.to.file < 8 && self.to.rank < 8
    }
}

/// The letter of file `f` ('a' for 0 up to 'h' for 7).
pub open spec fn file_char(f: u8) -> char {
    if f == 0 {
        'a'
    } else if f == 1 {
        'b'
    } else if f == 2 {
        'c'
    } else if f == 3 {
        'd'
    } else if f == 4 {
        'e'
    } else if f == 5 {
        'f'
    } else if f == 6 {
        'g'
    } else {
        'h'
    }
}

/// The digit of rank `r` ('1' for 0 up to '8' for 7).
pub open spec fn rank_char(r: u8) -> char {
    if r == 0 {
        '1'
    } else if r == 1 {
        '2'
    } else if r == 2 {
        '3'
    } else if r == 3 {
        '4'
    } else if r == 4 {
        '5'
    } else if r == 5 {
        '6'
    } else if r == 6 {
        '7'
    } else {
        '8'
    }
}

/// The file a letter names, if it names one.
pub open spec fn file_of_char(c: char) -> Option<u8> {
    if 'a' <= c && c <= 'h' {
        Some((c as u32 - 'a' as u32) as u8)
    } else {
        None
    }
}

/// The rank a digit names, if it names one.
pub open spec fn rank_of_char(c: char) -> Option<u8> {
    if '1' <= c && c <= '8' {
        Some((c as u32 - '1' as u32) as u8)
    } else {
        None
    }
}

/// The name of a square, such as "e4".
pub open spec fn square_name(sq: Square) -> Seq<char> {
    seq![file_char(sq.file), rank_char(sq.rank)]
}

/// The coordinate text sent over the wire: origin square then destination
/// square; a promotion is not written.
pub open spec fn move_text(m: Move) -> Seq<char> {
    square_name(m.from) + square_name(m.to)
}

/// The letter of a promotion piece.
pub open spec fn promotion_char(p: Promotion) -> char {
    match p {
        Promotion::Knight => 'n',
        Promotion::Bishop => 'b',
        Promotion::Rook => 'r',
        Promotion::Queen => 'q',
    }
}

/// The promotion piece a letter names, if it names one.
pub open spec fn promotion_of_char(c: char) -> Option<Promotion> {
    if c == 'n' {
        Some(Promotion::Knight)
    } else if c == 'b' {
        Some(Promotion::Bishop)
    } else if c == 'r' {
        Some(Promotion::Rook)
    } else if c == 'q' {
        Some(Promotion::Queen)
    } else {
        None
    }
}

/// The full coordinate text of a move: the two squares, then the promotion
/// letter if there is one ("e7e8q").
pub open spec fn coord_text(m: Move) -> Seq<char> {
    match m.promotion {
        None => move_text(m),
        Some(p) => move_text(m).push(promotion_char(p)),
    }
}

/// The move that full coordinate text names: exactly four characters naming
/// two squares, or five with a promotion letter last.
pub open spec fn move_of_coords(s: Seq<char>) -> Option<Move> {
    if s.len() == 4 {
        move_of_text(s)
    } else if s.len() == 5 {
        match (move_of_text(s), promotion_of_char(s[4])) {
            (Some(m), Some(p)) => Some(Move { promotion: Some(p), ..m }),
            _ => None,
        }
    } else {
        None
    }
}

/// Reading the full coordinate text of a move gives the move back.
pub proof fn coords_round_trip(m: Move)
    requires
        m.wf(),
    ensures
        move_of_coords(coord_text(m)) == Some(m),
{
    let t = coord_text(m);
    assert(file_of_char(file_char(m.from.file)) == Some(m.from.file));
    assert(rank_of_char(rank_char(m.from.rank)) == Some(m.from.rank));
    assert(file_of_char(file_char(m.to.file)) == Some(m.to.file));
    assert(rank_of_char(rank_char(m.to.rank)) == Some(m.to.rank));
    assert(t[0] == file_char(m.from.file));
    assert(t[1] == rank_char(m.from.rank));
    assert(t[2] == file_char(m.to.file));
    assert(t[3] == rank_char(m.to.rank));
    match m.promotion {
        None => {},
        Some(p) => {
            assert(t[4] == promotion_char(p));
        },
    }
}

/// The square named by the two characters at `i` and `i + 1` of `s`.
pub open spec fn square_at(s: Seq<char>, i: int) -> Option<Square> {
    match (file_of_char(s[i]), rank_of_char(s[i + 1])) {
        (Some(f), Some(r)) => Some(Square { file: f, rank: r }),
        _ => None,
    }
}

/// The move that coordinate text names: two squares in its first four
/// characters; anything after them is not read.
pub open spec fn move_of_text(s: Seq<char>) -> Option<Move> {
    if s.len() < 4 {
        None
    } else {
        match (square_at(s, 0), square_at(s, 2)) {
            (Some(a), Some(b)) => Some(Move { from: a, to: b, promotion: None }),
            _ => None,
        }
    }
}

fn file_str(f: u8) -> (r: &'static str)
    requires
        f < 8,
    ensures
        r@ == seq![file_char(f)],
{
    proof {
        reveal_strlit("a");
        reveal_strlit("b");
        reveal_strlit("c");
        reveal_strlit("d");
        reveal_strlit("e");
        reveal_strlit("f");
        reveal_strlit("g");
        reveal_strlit("h");
    }
    if f == 0 {
        "a"
    } else if f == 1 {
        "b"
    } else if f == 2 {
        "c"
    } else if f == 3 {
        "d"
    } else if f == 4 {
        "e"
    } else if f == 5 {
        "f"
    } else if f == 6 {
        "g"
    } else {
        "h"
    }
}

fn rank_str(r: u8) -> (s: &'static str)
    requires
        r < 8,
    ensures
        s@ == seq![rank_char(r)],
{
    proof {
        reveal_strlit("1");
        reveal_strlit("2");
        reveal_strlit("3");
        reveal_strlit("4");
        reveal_strlit("5");
        reveal_strlit("6");
        reveal_strlit("7");
        reveal_strlit("8");
    }
    if r == 0 {
        "1"
    } else if r == 1 {
        "2"
    } else if r == 2 {
        "3"
    } else if r == 3 {
        "4"
    } else if r == 4 {
        "5"
    } else if r == 5 {
        "6"
    } else if r == 6 {
        "7"
    } else {
        "8"
    }
}

/// The coordinate text of a move, such as "e2e4".
pub fn encode_move(m: Move) -> (r: String)
    requires
        m.wf(),
    ensures
        r@ == move_text(m),
{
    let mut r = String::new();
    r.append(file_str(m.from.file));
    r.append(rank_str(m.from.rank));
    r.append(file_str(m.to.file));
    r.append(rank_str(m.to.rank));
    assert(r@ =~= move_text(m));
    r
}

fn promotion_str(p: Promotion) -> (r: &'static str)
    ensures
        r@ == seq![promotion_char(p)],
{
    proof {
        reveal_strlit("n");
        reveal_strlit("b");
        reveal_strlit("r");
        reveal_strlit("q");
    }
    match p {
        Promotion::Knight => "n",
        Promotion::Bishop => "b",
        Promotion::Rook => "r",
        Promotion::Queen => "q",
    }
}

/// The full coordinate text of a move, such as "e2e4" or "e7e8q".
pub fn encode_coords(m: Move) -> (r: String)
    requires
        m.wf(),
    ensures
        r@ == coord_text(m),
{
    let mut r = encode_move(m);
    match m.promotion {
        None => {},
        Some(p) => {
            r.append(promotion_str(p));
        },
    }
    assert(r@ =~= coord_text(m));
    r
}

fn promotion_of(c: char) -> (r: Option<Promotion>)
    ensures
        r == promotion_of_char(c),
{
    if c == 'n' {
        Some(Promotion::Knight)
    } else if c == 'b' {
        Some(Promotion::Bishop)
    } else if c == 'r' {
        Some(Promotion::Rook)
    } else if c == 'q' {
        Some(Promotion::Queen)
    } else {
        None
    }
}

/// The move that full coordinate text such as "e7e8q" names, if it names one.
pub fn decode_coords(s: &str) -> (r: Option<Move>)
    ensures
        r == move_of_coords(s@),
        r matches Some(m) ==> m.wf(),
{
    let n = s.unicode_len();
    if n == 4 {
        decode_move(s)
    } else if n == 5 {
        match (decode_move(s), promotion_of(s.get_char(4))) {
            (Some(m), Some(p)) => Some(Move { promotion: Some(p), ..m }),
            _ => None,
        }
    } else {
        None
    }
}

fn file_of(c: char) -> (r: Option<u8>)
    ensures
        r == file_of_char(c),
{
    if 'a' <= c && c <= 'h' {
        Some((c as u32 - 'a' as u32) as u8)
    } else {
        None
    }
}

fn rank_of(c: char) -> (r: Option<u8>)
    ensures
        r == rank_of_char(c),
{
    if '1' <= c && c <= '8' {
        Some((c as u32 - '1' as u32) as u8)
    } else {
        None
    }
}

fn square_from(s: &str, i: usize) -> (r: Option<Square>)
    requires
        i <= 2,
        i + 1 < s@.len(),
    ensures
        r == square_at(s@, i as int),
{
    match (file_of(s.get_char(i)), rank_of(s.get_char(i + 1))) {
        (Some(f), Some(r)) => Some(Square { file: f, rank: r }),
        _ => None,
    }
}

/// The move that coordinate text such as "e2e4" names, if it names one.
pub fn decode_move(s: &str) -> (r: Option<Move>)
    ensures
        r == move_of_text(s@),
        r matches Some(m) ==> m.wf(),
{
    if s.unicode_len() < 4 {
        return None;
    }
    match (square_from(s, 0), square_from(s, 2)) {
        (Some(a), Some(b)) => Some(Move { from: a, to: b, promotion: None }),
        _ => None,
    }
}

} // verus!
