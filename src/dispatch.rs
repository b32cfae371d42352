//! Decisions on the remote server's streams: which account events start or
//! end a game, which game-state updates call for a move of ours, and what an
//! actionable update hands to the in-game loop.

use vstd::prelude::*;
use crate::gameloop::{acceptable, PlayCommand};
use crate::input::{move_input_of, parse_move_input, resign_line_resigns, MoveOption, RESIGN_COMMAND};
use crate::moves::{decode_move, move_of_text, Move};
use crate::side::{side_to_move, side_to_move_after, Color};
use crate::text::{last_token, last_token_of, trimmed};

verus! {

/// Strength of the bot that the session challenges.
pub const BOT_LEVEL: u8 = 1;

/// A challenge to one of the server's bots.
#[derive(Clone, Copy, Debug, PartialEq, Eq, Structural)]
pub struct BotChallenge {
    pub level: u8,
}

/// A game the server has started for us.
#[derive(Clone, Debug, PartialEq, Eq)]
pub struct RemoteGameInfo {
    pub game_id: String,
    pub color: Color,
    pub fen: String,
}

/// A session-level command.
#[derive(Clone, Debug, PartialEq, Eq)]
pub enum Command {
    /// Ask the server for a game against a bot.
    CreateRemoteGame { challenge: BotChallenge },
    /// The server started a game.
    RemoteGameStarted { info: RemoteGameInfo },
    /// The server finished the game.
    RemoteGameOver,
}

/// An event of the account-wide stream.
#[derive(Clone, Debug, PartialEq, Eq)]
pub enum AccountEvent {
    GameStart { game: RemoteGameInfo },
    GameFinish,
    Other,
}

/// The state of a game as the server reports it.
#[derive(Clone, Debug, PartialEq, Eq)]
pub struct GameStateInfo {
    /// The moves played so far, in coordinate text, separated by whitespace.
    pub moves: String,
    /// Whether the server names a winner.
    pub has_winner: bool,
}

/// An event of a game's stream.
#[derive(Clone, Debug, PartialEq, Eq)]
pub enum GameEvent {
    /// The first event of the stream: the whole game, with its current state.
    GameFull { state: GameStateInfo },
    /// A change of the game's state.
    GameState { state: GameStateInfo },
    /// The opponent has left.
    OpponentGone,
    Other,
}

/// What to do with an account event.
#[derive(Clone, Debug, PartialEq, Eq)]
pub enum AccountDispatch {
    /// Send the command to the session.
    Send { command: Command },
    /// Send the command to the session and stop reading the stream.
    SendAndStop { command: Command },
    /// Nothing.
    Ignore,
}

/// What to do with a game event.
#[derive(Clone, Debug, PartialEq, Eq)]
pub enum GameDispatch {
    /// The state calls for a move of ours.
    Act { state: GameStateInfo },
    /// Nothing.
    Ignore,
    /// Tell the in-game loop the opponent has gone, and stop reading the stream.
    OpponentGoneAndStop,
}

/// What an actionable state asks of the in-game loop.
#[derive(Clone, Debug, PartialEq, Eq)]
pub enum StateAction {
    /// No state: ask the operator for a move.
    Prompt,
    /// The game has a winner: nothing more to do.
    Finished,
    /// Hand over the opponent's last move, then ask the operator for a move.
    Opponent { chess_move: Move },
    /// The state's last move cannot be read.
    Malformed,
}

/// The command that challenges a bot.
pub fn bot_challenge() -> (r: Command)
    ensures
        r == (Command::CreateRemoteGame { challenge: BotChallenge { level: BOT_LEVEL } }),
{
    Command::CreateRemoteGame { challenge: BotChallenge { level: BOT_LEVEL } }
}

/// What an account event leads to: a started game is passed on, a finished
/// game ends the session and the stream, anything else is ignored.
pub open spec fn account_dispatch(ev: AccountEvent) -> AccountDispatch {
    match ev {
        AccountEvent::GameStart { game } => AccountDispatch::Send {
            command: Command::RemoteGameStarted { info: game },
        },
        AccountEvent::GameFinish => AccountDispatch::SendAndStop { command: Command::RemoteGameOver },
        AccountEvent::Other => AccountDispatch::Ignore,
    }
}

/// Decides on an account event.
pub fn dispatch_account_event(ev: AccountEvent) -> (r: AccountDispatch)
    ensures
        r == account_dispatch(ev),
{
    match ev {
        AccountEvent::GameStart { game } => AccountDispatch::Send {
            command: Command::RemoteGameStarted { info: game },
        },
        AccountEvent::GameFinish => AccountDispatch::SendAndStop { command: Command::RemoteGameOver },
        AccountEvent::Other => AccountDispatch::Ignore,
    }
}

/// What a game event leads to for the player of `mine`. The first, full
/// event is acted on only by Black (White moves unprompted); a later state is
/// acted on only when the side to move, from the number of moves played, is
/// `mine`, which leaves out the server's echo of our own move.
pub open spec fn game_dispatch(mine: Color, ev: GameEvent) -> GameDispatch {
    match ev {
        GameEvent::GameFull { state } => if mine == Color::Black {
            GameDispatch::Act { state }
        } else {
            GameDispatch::Ignore
        },
        GameEvent::GameState { state } => if side_to_move_after(state.moves@) == mine {
            GameDispatch::Act { state }
        } else {
            GameDispatch::Ignore
        },
        GameEvent::OpponentGone => GameDispatch::OpponentGoneAndStop,
        GameEvent::Other => GameDispatch::Ignore,
    }
}

/// Decides on a game event for the player of `mine`.
pub fn dispatch_game_event(mine: Color, ev: GameEvent) -> (r: GameDispatch)
    ensures
        r == game_dispatch(mine, ev),
{
    match ev {
        GameEvent::GameFull { state } => if mine == Color::Black {
            GameDispatch::Act { state }
        } else {
            GameDispatch::Ignore
        },
        GameEvent::GameState { state } => if side_to_move(state.moves.as_str()) == mine {
            GameDispatch::Act { state }
        } else {
            GameDispatch::Ignore
        },
        GameEvent::OpponentGone => GameDispatch::OpponentGoneAndStop,
        GameEvent::Other => GameDispatch::Ignore,
    }
}

/// What an actionable state asks of the in-game loop: with no state, a
/// prompt; with a winner, nothing; else the opponent's move, which is the
/// last one listed.
pub open spec fn state_action_of(state: Option<GameStateInfo>) -> StateAction {
    match state {
        None => StateAction::Prompt,
        Some(s) => if s.has_winner {
            StateAction::Finished
        } else {
            match last_token_of(s.moves@) {
                Some(t) => match move_of_text(t) {
                    Some(m) => StateAction::Opponent { chess_move: m },
                    None => StateAction::Malformed,
                },
                None => StateAction::Malformed,
            }
        },
    }
}

/// Decides what an actionable state asks of the in-game loop.
pub fn state_action(state: Option<GameStateInfo>) -> (r: StateAction)
    ensures
        r == state_action_of(state),
        r matches StateAction::Opponent { chess_move } ==> chess_move.wf(),
{
    match state {
        None => StateAction::Prompt,
        Some(s) => if s.has_winner {
            StateAction::Finished
        } else {
            match last_token(s.moves.as_str()) {
                Some(t) => match decode_move(t) {
                    Some(m) => StateAction::Opponent { chess_move: m },
                    None => StateAction::Malformed,
                },
                None => StateAction::Malformed,
            }
        },
    }
}

/// The in-game command for a line typed at the move prompt: the resign
/// command resigns; anything else is a move with its draw offer, if any.
pub open spec fn is_command_of_line(line: Seq<char>, cmd: PlayCommand) -> bool {
    let (text, option) = move_input_of(line);
    if option == Some(MoveOption::Resign) {
        cmd == PlayCommand::Resign
    } else {
        match cmd {
            PlayCommand::MakeMove { chess_move, option: o } => chess_move@ == text && o == option,
            _ => false,
        }
    }
}

/// The in-game command for a line typed at the move prompt.
pub fn command_of_line(line: &str) -> (r: PlayCommand)
    ensures
        is_command_of_line(line@, r),
        acceptable(r),
{
    let (text, option) = parse_move_input(line);
    match option {
        Some(MoveOption::Resign) => PlayCommand::Resign,
        _ => PlayCommand::MakeMove { chess_move: text, option },
    }
}


/// The resign command typed alone becomes the resign command of the in-game
/// loop: it is never handed over as move text.
pub proof fn resign_line_is_resign_command(line: Seq<char>, cmd: PlayCommand)
    requires
        trimmed(line) == RESIGN_COMMAND@,
        is_command_of_line(line, cmd),
    ensures
        cmd == PlayCommand::Resign,
{
    resign_line_resigns(line);
}

} // verus!
