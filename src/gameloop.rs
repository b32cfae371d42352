//! The in-game loop: one command at a time against the authoritative local
//! copy, deciding what goes out to the opponent's side.

use vstd::prelude::*;
use crate::board::LocalGame;
use crate::input::{str_equal, MoveOption, RESIGN_COMMAND};
use crate::moves::{encode_move, move_text, Move};

verus! {

/// A command for the in-game loop.
#[allow(inconsistent_fields)]
#[derive(Clone, Debug, PartialEq, Eq)]
pub enum PlayCommand {
    /// A move typed by the operator, in SAN, with what accompanies it.
    MakeMove { chess_move: String, option: Option<MoveOption> },
    /// A move the opponent made, as reported by the opponent's side.
    OpponentMove { chess_move: Move },
    /// The operator resigns.
    Resign,
    /// The opponent has left.
    OpponentGone,
}

/// What the loop does after one command.
#[derive(Clone, Debug, PartialEq, Eq)]
pub enum PlayOutcome {
    /// Send this move in coordinate text, with a draw offer if `draw`;
    /// `game_over` tells whether the game now has a result.
    Submit { uci_move: String, draw: bool, game_over: bool },
    /// The typed move is not legal here: tell the operator and ask again.
    Reprompt,
    /// The opponent's move has been taken in: ask the operator for the next move.
    AwaitLocal,
    /// Send the resignation and stop.
    SubmitResign,
    /// Stop: the game is over or the opponent has gone.
    Stop,
}

/// A command that the loop accepts: a typed move never carries the resign
/// option (resigning is a command of its own), and an opponent's move names
/// squares of the board.
pub open spec fn acceptable(cmd: PlayCommand) -> bool {
    match cmd {
        PlayCommand::MakeMove { option, .. } => option != Some(MoveOption::Resign),
        PlayCommand::OpponentMove { chess_move } => chess_move.wf(),
        _ => true,
    }
}

/// The outcome for an opponent's move, once it has been applied or ignored.
pub open spec fn after_opponent(game_over: bool) -> PlayOutcome {
    if game_over {
        PlayOutcome::Stop
    } else {
        PlayOutcome::AwaitLocal
    }
}

/// What one command does to the local copy, and what goes out. A typed move
/// (never the resign command) is looked up in the current position: a legal
/// move in a game without a result is made and submitted in coordinate text,
/// anything else asks again and changes nothing. An opponent's move is made
/// exactly when it is legal in a game without a result, and otherwise ignored.
pub open spec fn step_spec(old: LocalGame, new: LocalGame, cmd: PlayCommand, r: PlayOutcome) -> bool {
    match cmd {
        PlayCommand::MakeMove { chess_move, option } => {
            if chess_move@ == RESIGN_COMMAND@ {
                r == PlayOutcome::Reprompt && new == old
            } else {
                match old.lookup(chess_move@) {
                    Some(m) => if old.decided() {
                        r == PlayOutcome::Reprompt && new == old
                    } else {
                        &&& new.moves() == old.moves().push(m)
                        &&& r matches PlayOutcome::Submit { uci_move, draw, game_over }
                        &&& uci_move@ == move_text(m)
                        &&& draw == (option == Some(MoveOption::Draw))
                        &&& game_over == new.decided()
                    },
                    None => r == PlayOutcome::Reprompt && new == old,
                }
            }
        },
        PlayCommand::OpponentMove { chess_move } => {
            &&& if !old.decided() && old.legal(chess_move) {
                new.moves() == old.moves().push(chess_move)
            } else {
                new == old
            }
            &&& r == after_opponent(new.decided())
        },
        PlayCommand::Resign => r == PlayOutcome::SubmitResign && new == old,
        PlayCommand::OpponentGone => r == PlayOutcome::Stop && new == old,
    }
}

/// Runs one command against the local copy.
///
/// A typed move is looked up in the current position; if it is legal it is
/// made and sent in coordinate text, else the operator is asked again and
/// nothing changes. The resign command is never looked up as a move. An
/// opponent's move is applied without a legality check of its own; if the
/// local copy refuses it, it is an echo of a move already made and is
/// ignored, leaving the copy exactly as it was.
pub fn play_step(game: &mut LocalGame, cmd: PlayCommand) -> (r: PlayOutcome)
    requires
        acceptable(cmd),
    ensures
        step_spec(*old(game), *final(game), cmd, r),
{
    match cmd {
        PlayCommand::MakeMove { chess_move, option } => {
            if str_equal(chess_move.as_str(), RESIGN_COMMAND) {
                return PlayOutcome::Reprompt;
            }
            let draw = match option {
                Some(MoveOption::Draw) => true,
                _ => false,
            };
            match game.san_move(chess_move.as_str()) {
                Some(m) => {
                    if game.apply(m) {
                        let game_over = game.is_over();
                        PlayOutcome::Submit { uci_move: encode_move(m), draw, game_over }
                    } else {
                        PlayOutcome::Reprompt
                    }
                },
                None => PlayOutcome::Reprompt,
            }
        },
        PlayCommand::OpponentMove { chess_move } => {
            let _applied = game.apply(chess_move);
            if game.is_over() {
                PlayOutcome::Stop
            } else {
                PlayOutcome::AwaitLocal
            }
        },
        PlayCommand::Resign => PlayOutcome::SubmitResign,
        PlayCommand::OpponentGone => PlayOutcome::Stop,
    }
}

/// An opponent's move that cannot be applied (not legal here, or the game
/// already has a result) leaves the copy exactly as it was, and the loop
/// reports no error: it goes on to the operator's move, or stops if the game
/// is over.
pub proof fn refused_opponent_move_changes_nothing(
    old: LocalGame,
    new: LocalGame,
    m: Move,
    r: PlayOutcome,
)
    requires
        step_spec(old, new, PlayCommand::OpponentMove { chess_move: m }, r),
        old.decided() || !old.legal(m),
    ensures
        new == old,
        r == PlayOutcome::AwaitLocal || r == PlayOutcome::Stop,
{
}

/// The resign command typed as a move is never looked up as a move and
/// changes nothing.
pub proof fn resign_text_is_not_a_move(
    old: LocalGame,
    new: LocalGame,
    text: String,
    option: Option<MoveOption>,
    r: PlayOutcome,
)
    requires
        text@ == RESIGN_COMMAND@,
        step_spec(old, new, PlayCommand::MakeMove { chess_move: text, option }, r),
    ensures
        new == old,
        r == PlayOutcome::Reprompt,
{
}

} // verus!
