//! Sides of the board and whose turn it is after a number of half-moves.

use vstd::prelude::*;
use crate::text::{count_tokens, token_count};

verus! {

/// A side of the board.
#[derive(Clone, Copy, Debug, PartialEq, Eq, Structural)]
pub enum Color {
    White,
    Black,
}

/// The side to move after `n` half-moves from the initial position.
pub open spec fn turn_of(n: nat) -> Color {
    if n % 2 == 0 {
        Color::White
    } else {
        Color::Black
    }
}

/// The side to move after `n` half-moves from the initial position.
pub fn turn(n: usize) -> (r: Color)
    ensures
        r == turn_of(n as nat),
{
    if n % 2 == 0 {
        Color::White
    } else {
        Color::Black
    }
}

/// After `n` half-moves it is White's turn exactly when `n` is even.
pub proof fn turn_is_white_iff_even(n: nat)
    ensures
        (turn_of(n) == Color::White) <==> (n % 2 == 0),
{
}

/// The side to move once the whitespace-separated moves of `moves` have been
/// played from the initial position.
pub open spec fn side_to_move_after(moves: Seq<char>) -> Color {
    turn_of(token_count(moves))
}

/// The side to move once the whitespace-separated moves of `moves` have been
/// played from the initial position.
pub fn side_to_move(moves: &str) -> (r: Color)
    ensures
        r == side_to_move_after(moves@),
{
    turn(count_tokens(moves))
}

} // verus!
