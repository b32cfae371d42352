//! The session: which mode is played, and the decisions of each mode's loop.
//! Offline, the operator's lines and the engine's moves drive the local copy;
//! online, session commands start and end the in-game loop.

use vstd::prelude::*;
use crate::board::LocalGame;
use crate::dispatch::{BotChallenge, Command, RemoteGameInfo};
use crate::engine::{EngineInput, EngineOutput};
use crate::input::{move_input_of, parse_move_input};
use crate::moves::Move;
use crate::side::Color;

verus! {

/// Search depth handed to the engine when it is configured.
pub const ENGINE_DEPTH: i64 = 5;

/// The settings a session starts from.
#[derive(Clone, Debug, PartialEq, Eq)]
pub struct Settings {
    pub lichess_study_id: String,
    pub lichess_token: String,
    pub stockfish_bin_path: String,
    pub stockfish_level: String,
}

/// How a session is played.
#[derive(Clone, Copy, Debug, PartialEq, Eq, Structural)]
pub enum GameMode {
    /// Two players at one console.
    TwoPlayerOffline,
    /// The operator against a local engine.
    EngineOffline,
    /// The operator against a bot of the remote server.
    OnlineBot,
}

/// The mode a menu number chooses: 0, 1 or 2.
pub open spec fn mode_of_choice(n: u8) -> Option<GameMode> {
    if n == 0 {
        Some(GameMode::TwoPlayerOffline)
    } else if n == 1 {
        Some(GameMode::EngineOffline)
    } else if n == 2 {
        Some(GameMode::OnlineBot)
    } else {
        None
    }
}

/// The mode a menu number chooses, if any.
pub fn game_mode(n: u8) -> (r: Option<GameMode>)
    ensures
        r == mode_of_choice(n),
{
    if n == 0 {
        Some(GameMode::TwoPlayerOffline)
    } else if n == 1 {
        Some(GameMode::EngineOffline)
    } else if n == 2 {
        Some(GameMode::OnlineBot)
    } else {
        None
    }
}

/// What an operator's line did in an offline game.
#[derive(Clone, Debug, PartialEq, Eq)]
pub enum OfflineOutcome {
    /// The line carried a draw offer or resigned: the game ends here.
    Quit,
    /// The move is not legal here: ask again.
    Invalid,
    /// The move was made.
    Moved { chess_move: Move },
}

/// What an operator's line does to an offline game: a line with an option
/// ends the game; otherwise its text is looked up in the current position, and
/// a legal move in a game without a result is made, while anything else is
/// refused and changes nothing.
pub open spec fn offline_turn_spec(old: LocalGame, new: LocalGame, line: Seq<char>, r: OfflineOutcome) -> bool {
    let (text, option) = move_input_of(line);
    if option is Some {
        r == OfflineOutcome::Quit && new == old
    } else {
        match old.lookup(text) {
            Some(m) => if old.decided() {
                r == OfflineOutcome::Invalid && new == old
            } else {
                &&& r == (OfflineOutcome::Moved { chess_move: m })
                &&& m.wf()
                &&& new.moves() == old.moves().push(m)
                &&& new.starts_white() == old.starts_white()
            },
            None => r == OfflineOutcome::Invalid && new == old,
        }
    }
}

/// Takes a line typed by the operator in an offline game: a move is looked
/// up in the current position and made if legal; any option ends the game.
pub fn offline_turn(game: &mut LocalGame, line: &str) -> (r: OfflineOutcome)
    ensures
        offline_turn_spec(*old(game), *final(game), line@, r),
{
    let (text, option) = parse_move_input(line);
    if option.is_some() {
        return OfflineOutcome::Quit;
    }
    match game.san_move(text.as_str()) {
        Some(m) => {
            if game.apply(m) {
                OfflineOutcome::Moved { chess_move: m }
            } else {
                OfflineOutcome::Invalid
            }
        },
        None => OfflineOutcome::Invalid,
    }
}

/// Who acts next in a game against the engine.
#[derive(Clone, Copy, Debug, PartialEq, Eq, Structural)]
pub enum Turn {
    /// The game has a result.
    Over,
    /// The operator is to move.
    Operator,
    /// The engine is to move.
    Engine,
}

/// Who acts next when the operator plays `operator`.
pub open spec fn turn_spec(game: LocalGame, operator: Color) -> Turn {
    if game.decided() {
        Turn::Over
    } else if game.to_move() == operator {
        Turn::Operator
    } else {
        Turn::Engine
    }
}

/// Who acts next when the operator plays `operator`.
pub fn next_turn(game: &LocalGame, operator: Color) -> (r: Turn)
    ensures
        r == turn_spec(*game, operator),
{
    if game.is_over() {
        Turn::Over
    } else if game.side_to_move() == operator {
        Turn::Operator
    } else {
        Turn::Engine
    }
}

/// The request that configures the engine when the operator plays
/// `operator`: the engine plays the other side.
pub fn engine_configuration(level: String, operator: Color) -> (r: EngineInput)
    ensures
        r == (EngineInput::Configure {
            level,
            depth: ENGINE_DEPTH,
            engine_is_white: operator == Color::Black,
        }),
{
    EngineInput::Configure { level, depth: ENGINE_DEPTH, engine_is_white: operator == Color::Black }
}

/// What an operator's line did in a game against the engine.
#[derive(Clone, Debug, PartialEq, Eq)]
pub enum EngineGameOutcome {
    /// The line carried a draw offer or resigned: the game ends here.
    Quit,
    /// The move is not legal here: ask again.
    Invalid,
    /// The move was made: send `request` to the engine.
    Moved { request: EngineInput },
}

/// Takes a line typed by the operator in a game against the engine; a move
/// that is made is passed to the engine with the position that results.
pub fn engine_game_turn(game: &mut LocalGame, line: &str) -> (r: EngineGameOutcome)
    ensures
        match r {
            EngineGameOutcome::Quit => offline_turn_spec(*old(game), *final(game), line@, OfflineOutcome::Quit),
            EngineGameOutcome::Invalid => offline_turn_spec(
                *old(game),
                *final(game),
                line@,
                OfflineOutcome::Invalid,
            ),
            EngineGameOutcome::Moved { request } => match request {
                EngineInput::PlayerMove { chess_move, fen } => offline_turn_spec(
                    *old(game),
                    *final(game),
                    line@,
                    OfflineOutcome::Moved { chess_move },
                ) && fen@ == final(game).fen_text(),
                _ => false,
            },
        },
{
    match offline_turn(game, line) {
        OfflineOutcome::Quit => EngineGameOutcome::Quit,
        OfflineOutcome::Invalid => EngineGameOutcome::Invalid,
        OfflineOutcome::Moved { chess_move } => {
            let fen = game.fen();
            EngineGameOutcome::Moved { request: EngineInput::PlayerMove { chess_move, fen } }
        },
    }
}

/// Takes what the engine reported: its best move is made on the local copy
/// without a lookup of our own (the copy makes it exactly when it is legal
/// and the game has no result); an evaluation changes nothing.
pub fn take_engine_output(game: &mut LocalGame, out: EngineOutput) -> (applied: bool)
    requires
        out matches EngineOutput::BestMove { chess_move } ==> chess_move.wf(),
    ensures
        match out {
            EngineOutput::BestMove { chess_move } => {
                &&& applied == (!old(game).decided() && old(game).legal(chess_move))
                &&& if applied {
                    final(game).moves() == old(game).moves().push(chess_move)
                } else {
                    *final(game) == *old(game)
                }
            },
            EngineOutput::Eval { .. } => !applied && *final(game) == *old(game),
        },
{
    match out {
        EngineOutput::BestMove { chess_move } => game.apply(chess_move),
        EngineOutput::Eval { .. } => false,
    }
}

/// The online session: whether an in-game loop is running, and whether the
/// session has ended.
#[derive(Clone, Copy, Debug, PartialEq, Eq, Structural)]
pub struct OnlineSession {
    pub playing: bool,
    pub ended: bool,
}

/// What the online session does for a command.
#[derive(Clone, Debug, PartialEq, Eq)]
pub enum OnlineAction {
    /// Send the challenge to the server.
    SubmitChallenge { challenge: BotChallenge },
    /// Abort the running in-game loop, if `abort_running`, then start one
    /// for `info`.
    StartGame { info: RemoteGameInfo, abort_running: bool },
    /// Abort the running in-game loop, if `abort_running`, and the event
    /// stream; the session ends.
    EndSession { abort_running: bool },
    /// The session has ended: nothing.
    Ignore,
}

impl OnlineSession {
    /// A session with no game yet.
    pub fn new() -> (r: OnlineSession)
        ensures
            !r.playing,
            !r.ended,
    {
        OnlineSession { playing: false, ended: false }
    }
}

/// What one command does to the online session.
pub open spec fn online_step_spec(old: OnlineSession, new: OnlineSession, cmd: Command, r: OnlineAction) -> bool {
    if old.ended {
        r == OnlineAction::Ignore && new == old
    } else {
        match cmd {
            Command::CreateRemoteGame { challenge } => r == (OnlineAction::SubmitChallenge { challenge })
                && new == old,
            Command::RemoteGameStarted { info } => r == (OnlineAction::StartGame {
                info,
                abort_running: old.playing,
            }) && new == (OnlineSession { playing: true, ended: false }),
            Command::RemoteGameOver => r == (OnlineAction::EndSession { abort_running: old.playing })
                && new == (OnlineSession { playing: false, ended: true }),
        }
    }
}

/// Runs one session command. A started game replaces any running in-game
/// loop, so at most one runs at a time; the end of the game aborts it and
/// ends the session.
pub fn online_step(session: &mut OnlineSession, cmd: Command) -> (r: OnlineAction)
    ensures
        online_step_spec(*old(session), *final(session), cmd, r),
{
    if session.ended {
        return OnlineAction::Ignore;
    }
    match cmd {
        Command::CreateRemoteGame { challenge } => OnlineAction::SubmitChallenge { challenge },
        Command::RemoteGameStarted { info } => {
            let abort_running = session.playing;
            session.playing = true;
            OnlineAction::StartGame { info, abort_running }
        },
        Command::RemoteGameOver => {
            let abort_running = session.playing;
            session.playing = false;
            session.ended = true;
            OnlineAction::EndSession { abort_running }
        },
    }
}

} // verus!
