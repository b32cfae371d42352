//! The authoritative local copy of a game, kept by the chess crate, which
//! judges legality, applies moves and reports results.

use vstd::prelude::*;
use vstd::string::*;
use crate::input::RESIGN_COMMAND;
use crate::moves::{coord_text, coords_round_trip, decode_coords, encode_coords, move_of_coords, Move};
use crate::side::{turn_of, Color};

verus! {

#[verifier::external_type_specification]
#[verifier::external_body]
pub struct ExGame(chess::Game);

/// The moves recorded in a `chess::Game`, in the order they were made.
pub uninterp spec fn game_moves(g: chess::Game) -> Seq<Move>;

/// Whether White is to move in the starting position of a `chess::Game`.
pub uninterp spec fn game_starts_white(g: chess::Game) -> bool;

/// Whether a `chess::Game` has a result (checkmate, stalemate, or a recorded
/// draw or resignation).
pub uninterp spec fn game_decided(g: chess::Game) -> bool;

/// Whether a move is legal in the current position of a `chess::Game`.
pub uninterp spec fn is_legal_in(g: chess::Game, m: Move) -> bool;

/// The legal move that SAN text names in the current position of a
/// `chess::Game`, if it names one.
pub uninterp spec fn san_lookup(g: chess::Game, text: Seq<char>) -> Option<Move>;

/// The FEN text of the current position of a `chess::Game`.
pub uninterp spec fn game_fen_text(g: chess::Game) -> Seq<char>;

/// Whether `FromStr for chess::Game` accepts FEN text.
pub uninterp spec fn fen_accepted(fen: Seq<char>) -> bool;

/// Is `c` a FEN piece letter?
pub open spec fn is_piece_letter(c: char) -> bool {
    c == 'p' || c == 'n' || c == 'b' || c == 'r' || c == 'q' || c == 'k' || c == 'P' || c == 'N'
        || c == 'B' || c == 'R' || c == 'Q' || c == 'K'
}

/// The state after reading the placement characters of `p`: ranks finished
/// and squares filled in the current rank, or `None` once the text breaks the
/// layout of eight ranks of eight squares.
pub open spec fn placement_walk(p: Seq<char>) -> Option<(nat, nat)>
    decreases p.len(),
{
    if p.len() == 0 {
        Some((0nat, 0nat))
    } else {
        match placement_walk(p.drop_last()) {
            None => None,
            Some((r, f)) => {
                let c = p.last();
                if c == '/' {
                    if f == 8 && r < 7 {
                        Some(((r + 1) as nat, 0nat))
                    } else {
                        None
                    }
                } else if '1' <= c && c <= '8' {
                    let d = (c as nat - '0' as nat) as nat;
                    if f + d <= 8 {
                        Some((r, (f + d) as nat))
                    } else {
                        None
                    }
                } else if is_piece_letter(c) {
                    if f < 8 {
                        Some((r, (f + 1) as nat))
                    } else {
                        None
                    }
                } else {
                    None
                }
            },
        }
    }
}

/// Length of the piece-placement field of FEN text: the text before the first
/// space.
pub open spec fn placement_len(fen: Seq<char>) -> nat
    decreases fen.len(),
{
    if fen.len() == 0 {
        0
    } else if fen[0] == ' ' {
        0
    } else {
        1 + placement_len(fen.drop_first())
    }
}

/// Does position `i` of FEN text lie in its piece-placement field?
pub open spec fn in_placement(fen: Seq<char>, i: int) -> bool {
    0 <= i < placement_len(fen)
}

/// Does the piece-placement field of FEN text hold a piece `c`?
pub open spec fn places(fen: Seq<char>, c: char) -> bool {
    exists|i: int| in_placement(fen, i) && fen[i] == c
}

/// FEN text that is handed to the chess crate: ASCII only, a placement field
/// of exactly eight ranks of exactly eight squares, so that each square is
/// named once, and both kings placed.
pub open spec fn fen_admitted(fen: Seq<char>) -> bool {
    &&& forall|i: int| 0 <= i < fen.len() ==> ((#[trigger] fen[i]) as u32) < 128
    &&& placement_walk(fen.take(placement_len(fen) as int)) == Some((7nat, 8nat))
    &&& places(fen, 'K')
    &&& places(fen, 'k')
}

/// Relies on `chess::Game::new`: the initial position, White to move, no move
/// recorded, no result.
#[verifier::external_body]
fn standard_game() -> (g: chess::Game)
    ensures
        game_moves(g) == Seq::<Move>::empty(),
        game_starts_white(g),
        !game_decided(g),
{
    chess::Game::new()
}

/// Relies on `FromStr for chess::Game`: the position that FEN text describes,
/// with no move recorded. The crate looks up tables by the square of the king
/// to move without a bounds check, and reads the en-passant field by
/// characters after checking its length in bytes; admitted text has that
/// king on the board (each square is named once) and is ASCII.
#[verifier::external_body]
fn game_from_fen(fen: &str) -> (r: Option<chess::Game>)
    requires
        fen_admitted(fen@),
    ensures
        r is Some == fen_accepted(fen@),
        r matches Some(g) ==> game_moves(g) == Seq::<Move>::empty(),
{
    <chess::Game as std::str::FromStr>::from_str(fen).ok()
}

/// Relies on `chess::Game::current_position` and `chess::ChessMove::from_san`,
/// which finds the move that SAN text names among the legal moves of the
/// position, and on `Display for chess::ChessMove`, which writes it as full
/// coordinate text.
#[verifier::external_body]
fn san_to_coords(g: &chess::Game, text: &str) -> (r: Option<String>)
    ensures
        match san_lookup(*g, text@) {
            Some(m) => m.wf() && is_legal_in(*g, m) && r is Some && r->0@ == coord_text(m),
            None => r is None,
        },
{
    match chess::ChessMove::from_san(&g.current_position(), text) {
        Ok(m) => Some(m.to_string()),
        Err(_) => None,
    }
}

/// Relies on `FromStr for chess::ChessMove`, which reads full coordinate text,
/// and on `chess::Game::make_move`, which records a move exactly when the game
/// has no result and the move is legal, and otherwise leaves the game as it
/// was.
#[verifier::external_body]
fn make_move_coords(g: &mut chess::Game, coords: &str) -> (r: bool)
    requires
        move_of_coords(coords@) is Some,
    ensures
        r == (!game_decided(*old(g)) && is_legal_in(*old(g), move_of_coords(coords@)->0)),
        r ==> game_moves(*final(g)) == game_moves(*old(g)).push(move_of_coords(coords@)->0),
        r ==> game_starts_white(*final(g)) == game_starts_white(*old(g)),
        !r ==> *final(g) == *old(g),
{
    match <chess::ChessMove as std::str::FromStr>::from_str(coords) {
        Ok(m) => g.make_move(m),
        Err(_) => false,
    }
}

/// Relies on `chess::Game::result`: whether the game has a result.
#[verifier::external_body]
fn has_result(g: &chess::Game) -> (r: bool)
    ensures
        r == game_decided(*g),
{
    g.result().is_some()
}

/// Relies on `chess::Game::side_to_move`: the side to move alternates with each
/// recorded move, from the side to move in the starting position.
#[verifier::external_body]
fn game_side_to_move(g: &chess::Game) -> (r: Color)
    ensures
        r == turn_of(game_moves(*g).len() + if game_starts_white(*g) { 0nat } else { 1nat }),
{
    match g.side_to_move() {
        chess::Color::White => Color::White,
        chess::Color::Black => Color::Black,
    }
}

/// Relies on `chess::Game::current_position` and `Display for chess::Board`:
/// the current position as FEN text.
#[verifier::external_body]
fn game_fen(g: &chess::Game) -> (r: String)
    ensures
        r@ == game_fen_text(*g),
{
    g.current_position().to_string()
}

proof fn lemma_placement_walk_none_stays(p: Seq<char>)
    requires
        p.len() > 0,
        placement_walk(p.drop_last()) is None,
    ensures
        placement_walk(p) is None,
{
}

proof fn lemma_placement_len(fen: Seq<char>, end: int)
    requires
        0 <= end <= fen.len(),
        forall|k: int| 0 <= k < end ==> fen[k] != ' ',
        end == fen.len() || fen[end] == ' ',
    ensures
        placement_len(fen) == end,
    decreases end,
{
    if end > 0 {
        lemma_placement_len(fen.drop_first(), end - 1);
        assert forall|k: int| 0 <= k < end - 1 implies fen.drop_first()[k] != ' ' by {
            assert(fen.drop_first()[k] == fen[k + 1]);
        }
    }
}

/// Is FEN text admitted: ASCII, eight ranks of eight squares, both kings?
pub fn fen_is_admitted(fen: &str) -> (r: bool)
    ensures
        r == fen_admitted(fen@),
{
    let n = fen.unicode_len();
    let mut i: usize = 0;
    let mut ranks: usize = 0;
    let mut files: usize = 0;
    let mut white = false;
    let mut black = false;
    let mut in_field = true;
    let mut walk_ok = true;
    let ghost mut end: int = 0;
    assert(fen@.take(0) =~= Seq::<char>::empty());
    while i < n
        invariant
            n == fen@.len(),
            i <= n,
            forall|k: int| 0 <= k < i ==> ((#[trigger] fen@[k]) as u32) < 128,
            0 <= end <= i,
            in_field ==> end == i,
            !in_field ==> end < i && fen@[end] == ' ',
            forall|k: int| 0 <= k < end ==> fen@[k] != ' ',
            walk_ok ==> placement_walk(fen@.take(end)) == Some((ranks as nat, files as nat)),
            !walk_ok ==> placement_walk(fen@.take(end)) is None,
            ranks <= 7,
            files <= 8,
            white <==> exists|k: int| 0 <= k < end && fen@[k] == 'K',
            black <==> exists|k: int| 0 <= k < end && fen@[k] == 'k',
        decreases n - i,
    {
        let c = fen.get_char(i);
        if (c as u32) >= 128 {
            return false;
        }
        if in_field {
            if c == ' ' {
                in_field = false;
            } else {
                proof {
                    assert(fen@.take(i + 1).drop_last() =~= fen@.take(i as int));
                    assert(fen@.take(i + 1).last() == c);
                    if !walk_ok {
                        lemma_placement_walk_none_stays(fen@.take(i + 1));
                    }
                }
                if walk_ok {
                    if c == '/' {
                        if files == 8 && ranks < 7 {
                            ranks = ranks + 1;
                            files = 0;
                        } else {
                            walk_ok = false;
                        }
                    } else if '1' <= c && c <= '8' {
                        let d = (c as u32 - '0' as u32) as usize;
                        if files + d <= 8 {
                            files = files + d;
                        } else {
                            walk_ok = false;
                        }
                    } else if c == 'p' || c == 'n' || c == 'b' || c == 'r' || c == 'q' || c == 'k'
                        || c == 'P' || c == 'N' || c == 'B' || c == 'R' || c == 'Q' || c == 'K' {
                        if files < 8 {
                            files = files + 1;
                        } else {
                            walk_ok = false;
                        }
                    } else {
                        walk_ok = false;
                    }
                }
                if c == 'K' {
                    white = true;
                } else if c == 'k' {
                    black = true;
                }
                proof {
                    end = end + 1;
                }
            }
        }
        i = i + 1;
    }
    proof {
        lemma_placement_len(fen@, end);
        if white {
            let k = choose|k: int| 0 <= k < end && fen@[k] == 'K';
            assert(in_placement(fen@, k));
        }
        if black {
            let k = choose|k: int| 0 <= k < end && fen@[k] == 'k';
            assert(in_placement(fen@, k));
        }
    }
    walk_ok && ranks == 7 && files == 8 && white && black
}

/// The authoritative local copy of a game.
pub struct LocalGame {
    game: chess::Game,
}

impl LocalGame {
    /// The moves made so far, in order.
    pub closed spec fn moves(&self) -> Seq<Move> {
        game_moves(self.game)
    }

    /// Whether White was to move in the starting position.
    pub closed spec fn starts_white(&self) -> bool {
        game_starts_white(self.game)
    }

    /// Whether the game has a result.
    pub closed spec fn decided(&self) -> bool {
        game_decided(self.game)
    }

    /// Whether a move is legal in the current position.
    pub closed spec fn legal(&self, m: Move) -> bool {
        is_legal_in(self.game, m)
    }

    /// The legal move that SAN text names in the current position, if any.
    pub closed spec fn lookup(&self, text: Seq<char>) -> Option<Move> {
        san_lookup(self.game, text)
    }

    /// The current position as FEN text.
    pub closed spec fn fen_text(&self) -> Seq<char> {
        game_fen_text(self.game)
    }

    /// The side to move once the moves so far have been made.
    pub open spec fn to_move(&self) -> Color {
        turn_of(self.moves().len() + if self.starts_white() { 0nat } else { 1nat })
    }

    /// A game at the initial position.
    pub fn new() -> (r: LocalGame)
        ensures
            r.moves() == Seq::<Move>::empty(),
            r.starts_white(),
            !r.decided(),
    {
        LocalGame { game: standard_game() }
    }

    /// A game from the position that FEN text describes: admitted text that
    /// the chess crate accepts gives a game; other text gives none.
    pub fn from_fen(fen: &str) -> (r: Option<LocalGame>)
        ensures
            r is Some == (fen_admitted(fen@) && fen_accepted(fen@)),
            r matches Some(g) ==> g.moves() == Seq::<Move>::empty(),
    {
        if !fen_is_admitted(fen) {
            return None;
        }
        match game_from_fen(fen) {
            Some(game) => Some(LocalGame { game }),
            None => None,
        }
    }

    /// Whether the game has a result.
    pub fn is_over(&self) -> (r: bool)
        ensures
            r == self.decided(),
    {
        has_result(&self.game)
    }

    /// The side to move.
    pub fn side_to_move(&self) -> (r: Color)
        ensures
            r == self.to_move(),
    {
        game_side_to_move(&self.game)
    }

    /// The current position as FEN text.
    pub fn fen(&self) -> (r: String)
        ensures
            r@ == self.fen_text(),
    {
        game_fen(&self.game)
    }

    /// The legal move that SAN text names in the current position, if any.
    /// The resign command is never looked up.
    pub fn san_move(&self, text: &str) -> (r: Option<Move>)
        requires
            text@ != RESIGN_COMMAND@,
        ensures
            r == self.lookup(text@),
            r matches Some(m) ==> m.wf() && self.legal(m),
    {
        match san_to_coords(&self.game, text) {
            Some(t) => {
                proof {
                    coords_round_trip(san_lookup(self.game, text@)->0);
                }
                decode_coords(t.as_str())
            },
            None => None,
        }
    }

    /// Makes a move exactly when the game has no result and the move is
    /// legal; otherwise leaves the game exactly as it was.
    pub fn apply(&mut self, m: Move) -> (r: bool)
        requires
            m.wf(),
        ensures
            r == (!old(self).decided() && old(self).legal(m)),
            r ==> final(self).moves() == old(self).moves().push(m),
            r ==> final(self).starts_white() == old(self).starts_white(),
            !r ==> *final(self) == *old(self),
    {
        let t = encode_coords(m);
        proof {
            coords_round_trip(m);
        }
        make_move_coords(&mut self.game, t.as_str())
    }
}

} // verus!
