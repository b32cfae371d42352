use minac::board::LocalGame;
use minac::dispatch::{
    bot_challenge, command_of_line, dispatch_account_event, dispatch_game_event, state_action,
    AccountDispatch, AccountEvent, BotChallenge, Command, GameDispatch, GameEvent, GameStateInfo,
    RemoteGameInfo, StateAction,
};
use minac::engine::{engine_commands, has_no_upper_files, has_short_numbers, engine_text, receive_line, EngineInput, EngineOutput, UciCommand};
use minac::gameloop::{play_step, PlayCommand, PlayOutcome};
use minac::input::MoveOption;
use minac::moves::{Move, Square};
use minac::session::{
    engine_configuration, engine_game_turn, next_turn, online_step, take_engine_output, EngineGameOutcome,
    OnlineAction, OnlineSession, Turn,
};
use minac::side::Color;

fn mv(from: (u8, u8), to: (u8, u8)) -> Move {
    Move {
        from: Square { file: from.0, rank: from.1 },
        to: Square { file: to.0, rank: to.1 },
        promotion: None,
    }
}

fn info(color: Color) -> RemoteGameInfo {
    RemoteGameInfo {
        game_id: "abcd1234".to_string(),
        color,
        fen: "rnbqkbnr/pppppppp/8/8/8/8/PPPPPPPP/RNBQKBNR w KQkq - 0 1".to_string(),
    }
}

fn state(moves: &str) -> GameStateInfo {
    GameStateInfo { moves: moves.to_string(), has_winner: false }
}

#[test]
fn configure_with_engine_white_searches() {
    let input = EngineInput::Configure { level: "3".to_string(), depth: 5, engine_is_white: true };
    assert_eq!(
        engine_text(&input),
        "uci\nucinewgame\nposition startpos\nsetoption name Skill Level value 3\nisready\n\
         go wtime 5000 btime 5000 movestogo 90 \n"
    );
}

#[test]
fn configure_with_engine_black_waits() {
    let input = EngineInput::Configure { level: "20".to_string(), depth: 5, engine_is_white: false };
    let cs = engine_commands(&input);
    assert_eq!(cs.len(), 5);
    assert!(cs.iter().all(|c| !matches!(c, UciCommand::Go { .. })));
    assert_eq!(
        engine_text(&input),
        "uci\nucinewgame\nposition startpos\nsetoption name Skill Level value 20\nisready\n"
    );
}

#[test]
fn empty_level_is_written_as_empty() {
    let input = EngineInput::Configure { level: String::new(), depth: 5, engine_is_white: false };
    assert!(engine_text(&input).contains("setoption name Skill Level value <empty>\n"));
}

#[test]
fn player_move_sets_position_and_searches() {
    let fen = "rnbqkbnr/pppppppp/8/8/8/8/PPPPPPPP/RNBQKBNR w KQkq - 0 1".to_string();
    let input = EngineInput::PlayerMove { chess_move: mv((4, 1), (4, 3)), fen: fen.clone() };
    assert_eq!(
        engine_text(&input),
        format!("position fen {} moves e2e4\ngo wtime 5000 btime 5000 movestogo 90 \n", fen)
    );
}

#[test]
fn receive_keeps_only_best_moves() {
    assert_eq!(
        receive_line("bestmove e2e4 ponder e7e5"),
        vec![EngineOutput::BestMove { chess_move: mv((4, 1), (4, 3)) }]
    );
    assert_eq!(receive_line("bestmove g8f6"), vec![EngineOutput::BestMove { chess_move: mv((6, 7), (5, 5)) }]);
    assert!(receive_line("info depth 10 score cp 31 nodes 1000 pv e2e4").is_empty());
    assert!(receive_line("readyok").is_empty());
    assert!(receive_line("uciok").is_empty());
    assert!(receive_line("id name Stockfish 16").is_empty());
    assert!(receive_line("something the parser does not know").is_empty());
    assert!(receive_line("").is_empty());
    assert!(receive_line("info depth 20 seldepth 31 score cp 35").is_empty());
    assert!(receive_line("info depth 300 nodes 123456789").is_empty());
    assert!(receive_line("info score cp 99999999999999999999999").is_empty());
    assert!(receive_line("bestmove E2E4").is_empty());
    assert!(receive_line("info string NNUE evaluation").is_empty());
}

#[test]
fn upper_case_files_are_found() {
    assert!(has_no_upper_files("bestmove e2e4 ponder e7e5"));
    assert!(!has_no_upper_files("bestmove E2E4"));
    assert!(has_no_upper_files("info string nnue"));
    assert!(!has_no_upper_files("info string NNUE"));
    assert!(has_no_upper_files("ZZ IJ"));
}

#[test]
fn long_digit_runs_are_found() {
    assert!(has_short_numbers("bestmove e2e4 ponder e7e5"));
    assert!(has_short_numbers("info depth 20 score cp 35"));
    assert!(!has_short_numbers("info depth 300"));
    assert!(!has_short_numbers("123"));
    assert!(has_short_numbers(""));
}

#[test]
fn engine_white_scenario() {
    let operator = Color::Black;
    let config = engine_configuration("5".to_string(), operator);
    assert_eq!(config, EngineInput::Configure { level: "5".to_string(), depth: 5, engine_is_white: true });
    assert!(engine_text(&config).ends_with("go wtime 5000 btime 5000 movestogo 90 \n"));
    let mut game = LocalGame::new();
    assert_eq!(next_turn(&game, operator), Turn::Engine);
    // the engine answers the search before any move of the operator is sent
    let outs = receive_line("bestmove e2e4");
    assert_eq!(outs.len(), 1);
    assert!(take_engine_output(&mut game, outs[0].clone()));
    assert_eq!(next_turn(&game, operator), Turn::Operator);
    match engine_game_turn(&mut game, "e5") {
        EngineGameOutcome::Moved { request: EngineInput::PlayerMove { chess_move, fen } } => {
            assert_eq!(chess_move, mv((4, 6), (4, 4)));
            assert_eq!(fen, game.fen());
            assert_eq!(fen, "rnbqkbnr/pppp1ppp/8/4p3/4P3/8/PPPP1PPP/RNBQKBNR w KQkq - 0 1");
        }
        other => panic!("unexpected outcome {:?}", other),
    }
    assert_eq!(next_turn(&game, operator), Turn::Engine);
    assert!(!take_engine_output(&mut game, EngineOutput::Eval { score: 20 }));
}

#[test]
fn engine_game_invalid_and_quit() {
    let mut game = LocalGame::new();
    assert_eq!(engine_game_turn(&mut game, "e5"), EngineGameOutcome::Invalid);
    assert_eq!(engine_game_turn(&mut game, "e4DRAW"), EngineGameOutcome::Quit);
    assert_eq!(engine_game_turn(&mut game, "RESIGN"), EngineGameOutcome::Quit);
    assert_eq!(next_turn(&game, Color::White), Turn::Operator);
}

#[test]
fn account_events() {
    assert_eq!(
        dispatch_account_event(AccountEvent::GameStart { game: info(Color::Black) }),
        AccountDispatch::Send { command: Command::RemoteGameStarted { info: info(Color::Black) } }
    );
    assert_eq!(
        dispatch_account_event(AccountEvent::GameFinish),
        AccountDispatch::SendAndStop { command: Command::RemoteGameOver }
    );
    assert_eq!(dispatch_account_event(AccountEvent::Other), AccountDispatch::Ignore);
    assert_eq!(bot_challenge(), Command::CreateRemoteGame { challenge: BotChallenge { level: 1 } });
}

#[test]
fn game_events_for_white() {
    assert_eq!(dispatch_game_event(Color::White, GameEvent::GameFull { state: state("") }), GameDispatch::Ignore);
    assert_eq!(dispatch_game_event(Color::White, GameEvent::GameState { state: state("e2e4") }), GameDispatch::Ignore);
    assert_eq!(
        dispatch_game_event(Color::White, GameEvent::GameState { state: state("e2e4 e7e5") }),
        GameDispatch::Act { state: state("e2e4 e7e5") }
    );
    assert_eq!(dispatch_game_event(Color::White, GameEvent::OpponentGone), GameDispatch::OpponentGoneAndStop);
    assert_eq!(dispatch_game_event(Color::White, GameEvent::Other), GameDispatch::Ignore);
}

#[test]
fn online_black_scenario() {
    let mine = Color::Black;
    let mut session = OnlineSession::new();
    assert_eq!(
        online_step(&mut session, bot_challenge()),
        OnlineAction::SubmitChallenge { challenge: BotChallenge { level: 1 } }
    );
    let started = match dispatch_account_event(AccountEvent::GameStart { game: info(mine) }) {
        AccountDispatch::Send { command } => command,
        other => panic!("unexpected {:?}", other),
    };
    assert_eq!(
        online_step(&mut session, started),
        OnlineAction::StartGame { info: info(mine), abort_running: false }
    );
    let mut game = LocalGame::from_fen(&info(mine).fen).unwrap();
    let mut submissions = 0;
    // one move played: Black to move, so this update is ours to act on
    let first = dispatch_game_event(mine, GameEvent::GameState { state: state("e2e4") });
    assert_eq!(first, GameDispatch::Act { state: state("e2e4") });
    if let GameDispatch::Act { state } = first {
        let action = state_action(Some(state));
        assert_eq!(action, StateAction::Opponent { chess_move: mv((4, 1), (4, 3)) });
        if let StateAction::Opponent { chess_move } = action {
            assert_eq!(play_step(&mut game, PlayCommand::OpponentMove { chess_move }), PlayOutcome::AwaitLocal);
        }
        let reply = command_of_line("e5");
        if let PlayOutcome::Submit { uci_move, draw, .. } = play_step(&mut game, reply) {
            assert_eq!(uci_move, "e7e5");
            assert!(!draw);
            submissions += 1;
        }
    }
    // our own move echoed back: White to move, ignored
    assert_eq!(dispatch_game_event(mine, GameEvent::GameState { state: state("e2e4 e7e5") }), GameDispatch::Ignore);
    assert_eq!(submissions, 1);
    assert_eq!(
        dispatch_account_event(AccountEvent::GameFinish),
        AccountDispatch::SendAndStop { command: Command::RemoteGameOver }
    );
    assert_eq!(online_step(&mut session, Command::RemoteGameOver), OnlineAction::EndSession { abort_running: true });
    assert_eq!(online_step(&mut session, Command::RemoteGameOver), OnlineAction::Ignore);
}

#[test]
fn new_game_replaces_running_loop() {
    let mut session = OnlineSession::new();
    let cmd = Command::RemoteGameStarted { info: info(Color::White) };
    assert_eq!(online_step(&mut session, cmd.clone()), OnlineAction::StartGame { info: info(Color::White), abort_running: false });
    assert_eq!(online_step(&mut session, cmd), OnlineAction::StartGame { info: info(Color::White), abort_running: true });
    assert!(session.playing);
}

#[test]
fn full_event_for_black_and_state_actions() {
    assert_eq!(
        dispatch_game_event(Color::Black, GameEvent::GameFull { state: state("e2e4") }),
        GameDispatch::Act { state: state("e2e4") }
    );
    assert_eq!(state_action(None), StateAction::Prompt);
    assert_eq!(
        state_action(Some(GameStateInfo { moves: "e2e4".to_string(), has_winner: true })),
        StateAction::Finished
    );
    assert_eq!(state_action(Some(state(""))), StateAction::Malformed);
    assert_eq!(state_action(Some(state("e2e4 zz"))), StateAction::Malformed);
    assert_eq!(
        state_action(Some(state("e2e4 e7e5 g1f3 "))),
        StateAction::Opponent { chess_move: mv((6, 0), (5, 2)) }
    );
}

#[test]
fn typed_lines_become_commands() {
    assert_eq!(command_of_line("RESIGN\n"), PlayCommand::Resign);
    assert_eq!(
        command_of_line("Nf3DRAW"),
        PlayCommand::MakeMove { chess_move: "Nf3".to_string(), option: Some(MoveOption::Draw) }
    );
    assert_eq!(command_of_line(" e4 "), PlayCommand::MakeMove { chess_move: "e4".to_string(), option: None });
}
