use minac::input::{parse_move_input, parse_side, parse_u8, str_equal, MoveOption};
use minac::session::{game_mode, GameMode};
use minac::side::{side_to_move, turn, Color};
use minac::text::{count_tokens, last_token, trim};

#[test]
fn turn_alternates_from_white() {
    assert_eq!(turn(0), Color::White);
    assert_eq!(turn(1), Color::Black);
    assert_eq!(turn(2), Color::White);
    assert_eq!(turn(7), Color::Black);
    assert_eq!(turn(usize::MAX), Color::Black);
}

#[test]
fn side_to_move_counts_moves() {
    assert_eq!(side_to_move(""), Color::White);
    assert_eq!(side_to_move("e2e4"), Color::Black);
    assert_eq!(side_to_move("e2e4 e7e5"), Color::White);
    assert_eq!(side_to_move("  e2e4\t e7e5\n g1f3 "), Color::Black);
}

#[test]
fn tokens_are_whitespace_delimited() {
    assert_eq!(count_tokens(""), 0);
    assert_eq!(count_tokens("   "), 0);
    assert_eq!(count_tokens("a"), 1);
    assert_eq!(count_tokens("  a  bb\tc \n"), 3);
    assert_eq!(last_token("e2e4 e7e5  "), Some("e7e5"));
    assert_eq!(last_token("e2e4"), Some("e2e4"));
    assert_eq!(last_token(" \t"), None);
}

#[test]
fn trim_removes_outer_whitespace() {
    assert_eq!(trim("  Nf3 \n"), "Nf3");
    assert_eq!(trim("a b"), "a b");
    assert_eq!(trim("\t\n "), "");
    assert_eq!(trim(""), "");
}

#[test]
fn plain_move_has_no_option() {
    assert_eq!(parse_move_input("Nf3\n"), ("Nf3".to_string(), None));
}

#[test]
fn draw_suffix_is_stripped_once() {
    assert_eq!(parse_move_input(" Qxf5DRAW\n"), ("Qxf5".to_string(), Some(MoveOption::Draw)));
    assert_eq!(parse_move_input("e4DRAWDRAW"), ("e4DRAW".to_string(), Some(MoveOption::Draw)));
    assert_eq!(parse_move_input("DRAWe4DRAW"), ("DRAWe4".to_string(), Some(MoveOption::Draw)));
    assert_eq!(parse_move_input("DRAW"), ("".to_string(), Some(MoveOption::Draw)));
}

#[test]
fn resign_command_is_an_option() {
    assert_eq!(parse_move_input("RESIGN\n"), ("RESIGN".to_string(), Some(MoveOption::Resign)));
    assert_eq!(parse_move_input("RESIGNx"), ("RESIGNx".to_string(), None));
}

#[test]
fn side_answers() {
    assert_eq!(parse_side("W\n"), Some(Color::White));
    assert_eq!(parse_side(" B "), Some(Color::Black));
    assert_eq!(parse_side("w"), None);
    assert_eq!(parse_side("WB"), None);
}

#[test]
fn menu_numbers() {
    assert_eq!(parse_u8("0"), Some(0));
    assert_eq!(parse_u8("+7"), Some(7));
    assert_eq!(parse_u8("007"), Some(7));
    assert_eq!(parse_u8("255"), Some(255));
    assert_eq!(parse_u8("256"), None);
    assert_eq!(parse_u8("99999"), None);
    assert_eq!(parse_u8(""), None);
    assert_eq!(parse_u8("+"), None);
    assert_eq!(parse_u8("-1"), None);
    assert_eq!(parse_u8("1a"), None);
    assert_eq!(game_mode(0), Some(GameMode::TwoPlayerOffline));
    assert_eq!(game_mode(1), Some(GameMode::EngineOffline));
    assert_eq!(game_mode(2), Some(GameMode::OnlineBot));
    assert_eq!(game_mode(3), None);
}

#[test]
fn string_equality() {
    assert!(str_equal("abc", "abc"));
    assert!(!str_equal("abc", "abd"));
    assert!(!str_equal("ab", "abc"));
    assert!(str_equal("", ""));
}
