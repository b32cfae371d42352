use minac::board::{fen_is_admitted, LocalGame};
use minac::gameloop::{play_step, PlayCommand, PlayOutcome};
use minac::input::MoveOption;
use minac::moves::{decode_coords, decode_move, encode_coords, encode_move, Move, Promotion, Square};
use minac::session::{offline_turn, OfflineOutcome};
use minac::side::Color;

const START_FEN: &str = "rnbqkbnr/pppppppp/8/8/8/8/PPPPPPPP/RNBQKBNR w KQkq - 0 1";

fn mv(from: (u8, u8), to: (u8, u8)) -> Move {
    Move {
        from: Square { file: from.0, rank: from.1 },
        to: Square { file: to.0, rank: to.1 },
        promotion: None,
    }
}

#[test]
fn move_text_round_trip() {
    let e2e4 = mv((4, 1), (4, 3));
    assert_eq!(encode_move(e2e4), "e2e4");
    assert_eq!(decode_move("e2e4"), Some(e2e4));
    assert_eq!(decode_move("a1h8"), Some(mv((0, 0), (7, 7))));
    assert_eq!(decode_move("e7e8q"), Some(mv((4, 6), (4, 7))));
    assert_eq!(decode_move("e2e"), None);
    assert_eq!(decode_move("i2e4"), None);
    assert_eq!(decode_move("e9e4"), None);
    let promo = Move { promotion: Some(Promotion::Queen), ..mv((4, 6), (4, 7)) };
    assert_eq!(encode_coords(promo), "e7e8q");
    assert_eq!(encode_move(promo), "e7e8");
    assert_eq!(decode_coords("e7e8q"), Some(promo));
    assert_eq!(decode_coords("e7e8k"), None);
    assert_eq!(decode_coords("e2e4"), Some(e2e4));
}

#[test]
fn new_game_is_at_the_initial_position() {
    let g = LocalGame::new();
    assert_eq!(g.fen(), START_FEN);
    assert_eq!(g.side_to_move(), Color::White);
    assert!(!g.is_over());
}

#[test]
fn two_player_scenario() {
    let mut g = LocalGame::new();
    for (line, white_to_move_after) in [("e4", false), ("e5", true), ("Nf3", false), ("Nc6", true)] {
        match offline_turn(&mut g, line) {
            OfflineOutcome::Moved { .. } => {}
            other => panic!("unexpected outcome {:?}", other),
        }
        let expected = if white_to_move_after { Color::White } else { Color::Black };
        assert_eq!(g.side_to_move(), expected);
    }
    assert_eq!(g.fen(), "r1bqkbnr/pppp1ppp/2n5/4p3/4P3/5N2/PPPP1PPP/RNBQKB1R w KQkq - 0 1");
    let before = g.fen();
    assert_eq!(offline_turn(&mut g, "Ke5"), OfflineOutcome::Invalid);
    assert_eq!(offline_turn(&mut g, "xyz"), OfflineOutcome::Invalid);
    assert_eq!(g.fen(), before);
    assert_eq!(offline_turn(&mut g, "Bc4DRAW"), OfflineOutcome::Quit);
    assert_eq!(offline_turn(&mut g, "RESIGN"), OfflineOutcome::Quit);
    assert_eq!(g.fen(), before);
}

#[test]
fn san_lookup_gives_the_legal_move() {
    let g = LocalGame::new();
    assert_eq!(g.san_move("Nf3"), Some(mv((6, 0), (5, 2))));
    assert_eq!(g.san_move("e4"), Some(mv((4, 1), (4, 3))));
    assert_eq!(g.san_move("e5"), None);
}

#[test]
fn game_from_fen() {
    let fen = "rnbqkbnr/pppppppp/8/8/4P3/8/PPPP1PPP/RNBQKBNR b KQkq - 0 1";
    let g = LocalGame::from_fen(fen).unwrap();
    assert_eq!(g.side_to_move(), Color::Black);
    assert!(LocalGame::from_fen("not a position").is_none());
    assert!(LocalGame::from_fen("8/8/8/8/8/8/8/8 w - - 0 1").is_none());
    assert!(LocalGame::from_fen("4k3/8/8/8/8/8/8/8 w - - 0 1").is_none());
    let kings = LocalGame::from_fen("4k3/8/8/8/8/8/8/4K3 b - - 0 1").unwrap();
    assert_eq!(kings.side_to_move(), Color::Black);
    assert!(!kings.is_over());
    let stalemate = LocalGame::from_fen("7k/5Q2/6K1/8/8/8/8/8 b - - 0 1").unwrap();
    assert!(stalemate.is_over());
}

#[test]
fn local_move_is_submitted_in_coordinates() {
    let mut g = LocalGame::new();
    let r = play_step(&mut g, PlayCommand::MakeMove { chess_move: "Nf3".to_string(), option: None });
    assert_eq!(r, PlayOutcome::Submit { uci_move: "g1f3".to_string(), draw: false, game_over: false });
    let r = play_step(
        &mut g,
        PlayCommand::MakeMove { chess_move: "d5".to_string(), option: Some(MoveOption::Draw) },
    );
    assert_eq!(r, PlayOutcome::Submit { uci_move: "d7d5".to_string(), draw: true, game_over: false });
}

#[test]
fn illegal_local_move_reprompts() {
    let mut g = LocalGame::new();
    let before = g.fen();
    let r = play_step(&mut g, PlayCommand::MakeMove { chess_move: "Qh5".to_string(), option: None });
    assert_eq!(r, PlayOutcome::Reprompt);
    let r = play_step(&mut g, PlayCommand::MakeMove { chess_move: "RESIGN".to_string(), option: None });
    assert_eq!(r, PlayOutcome::Reprompt);
    assert_eq!(g.fen(), before);
}

#[test]
fn refused_opponent_move_is_ignored() {
    let mut g = LocalGame::new();
    let r = play_step(&mut g, PlayCommand::OpponentMove { chess_move: mv((4, 1), (4, 3)) });
    assert_eq!(r, PlayOutcome::AwaitLocal);
    let after_first = g.fen();
    // the same move again is an echo: Black to move cannot play e2e4
    let r = play_step(&mut g, PlayCommand::OpponentMove { chess_move: mv((4, 1), (4, 3)) });
    assert_eq!(r, PlayOutcome::AwaitLocal);
    assert_eq!(g.fen(), after_first);
    assert_eq!(g.side_to_move(), Color::Black);
}

#[test]
fn resign_and_opponent_gone() {
    let mut g = LocalGame::new();
    assert_eq!(play_step(&mut g, PlayCommand::Resign), PlayOutcome::SubmitResign);
    assert_eq!(play_step(&mut g, PlayCommand::OpponentGone), PlayOutcome::Stop);
    assert_eq!(g.fen(), START_FEN);
}

#[test]
fn checkmate_ends_the_loop() {
    let mut g = LocalGame::new();
    for san in ["f3", "e5", "g4"] {
        assert!(matches!(offline_turn(&mut g, san), OfflineOutcome::Moved { .. }));
    }
    let r = play_step(&mut g, PlayCommand::OpponentMove { chess_move: mv((3, 7), (7, 3)) });
    assert_eq!(r, PlayOutcome::Stop);
    assert!(g.is_over());
    let r = play_step(&mut g, PlayCommand::MakeMove { chess_move: "a3".to_string(), option: None });
    assert_eq!(r, PlayOutcome::Reprompt);
}

#[test]
fn fen_admission() {
    assert!(fen_is_admitted(START_FEN));
    assert!(fen_is_admitted("4k3/8/8/8/8/8/8/4K3 w - - 0 1"));
    assert!(!fen_is_admitted("4q3/8/8/8/8/8/8/4K3 w - - 0 1"));
    assert!(!fen_is_admitted("4Q3/8/8/8/8/8/8/4Q3 w - - 0 1 Kk"));
    // a rank of nine squares would put the rook on the white king's square
    assert!(!fen_is_admitted("K7Rk w - - 0 1"));
    assert!(!fen_is_admitted("K7R/7k/8/8/8/8/8/8 w - - 0 1"));
    assert!(!fen_is_admitted("4k3/8/8/8/8/8/8/4K3/8 w - - 0 1"));
    assert!(!fen_is_admitted("4k3/8/8/8/8/8/8/4K3 w - \u{e9} 0 1"));
    assert!(!fen_is_admitted(""));
    assert!(LocalGame::from_fen("K7Rk w - - 0 1").is_none());
}
