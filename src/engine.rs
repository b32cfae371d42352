//! The bridge to a local engine process speaking the UCI text protocol: what
//! is written to its input for each request, and what is taken from each line
//! it prints.

use vstd::prelude::*;
use vstd::string::*;
use crate::input::is_digit;
use crate::moves::{coord_text, coords_round_trip, decode_coords, encode_coords, move_of_coords, Move};

verus! {

/// Seconds on each side's clock in every search request.
pub const SEARCH_SECONDS: u32 = 5;

/// Moves to the next time control in every search request.
pub const SEARCH_MOVES_TO_GO: u8 = 90;

/// Name of the engine option that sets its playing strength.
pub const STRENGTH_OPTION: &'static str = "Skill Level";

/// A request for the engine.
#[derive(Clone, Debug, PartialEq, Eq)]
pub enum EngineInput {
    /// Start a game from the initial position at strength `level`; when the
    /// engine plays White it is asked for the first move at once.
    Configure { level: String, depth: i64, engine_is_white: bool },
    /// The operator played `chess_move` in the position that `fen` describes.
    PlayerMove { chess_move: Move, fen: String },
}

/// What the engine reports back.
#[derive(Clone, Debug, PartialEq, Eq)]
pub enum EngineOutput {
    /// The move the engine chose.
    BestMove { chess_move: Move },
    /// The engine's evaluation of the position.
    Eval { score: i32 },
}

/// A protocol command sent to the engine.
#[derive(Clone, Debug, PartialEq, Eq)]
pub enum UciCommand {
    /// Handshake.
    Uci,
    /// Reset for a new game.
    UciNewGame,
    /// Set the position to the initial one.
    PositionStart,
    /// Set the engine's strength option to `level`.
    SetStrength { level: String },
    /// Ready check.
    IsReady,
    /// Set the position that `fen` describes, with `chess_move` played in it.
    PositionAfter { fen: String, chess_move: Move },
    /// Search with `seconds` on each clock and `moves_to_go` moves to the
    /// next time control.
    Go { seconds: u32, moves_to_go: u8 },
}

/// The digit for `d` (0 to 9).
pub open spec fn digit_char(d: nat) -> char {
    if d == 0 {
        '0'
    } else if d == 1 {
        '1'
    } else if d == 2 {
        '2'
    } else if d == 3 {
        '3'
    } else if d == 4 {
        '4'
    } else if d == 5 {
        '5'
    } else if d == 6 {
        '6'
    } else if d == 7 {
        '7'
    } else if d == 8 {
        '8'
    } else {
        '9'
    }
}

/// The decimal text of `n`, without leading zeros.
pub open spec fn decimal(n: nat) -> Seq<char>
    decreases n,
{
    if n < 10 {
        seq![digit_char(n)]
    } else {
        decimal(n / 10).push(digit_char(n % 10))
    }
}

/// The protocol line (without its newline) for a command.
pub open spec fn uci_line(c: UciCommand) -> Seq<char> {
    match c {
        UciCommand::Uci => "uci"@,
        UciCommand::UciNewGame => "ucinewgame"@,
        UciCommand::PositionStart => "position startpos"@,
        UciCommand::SetStrength { level } => "setoption name "@ + STRENGTH_OPTION@ + " value "@
            + if level@.len() == 0 {
            "<empty>"@
        } else {
            level@
        },
        UciCommand::IsReady => "isready"@,
        UciCommand::PositionAfter { fen, chess_move } => "position fen "@ + fen@ + " moves "@
            + coord_text(chess_move),
        UciCommand::Go { seconds, moves_to_go } => "go wtime "@ + decimal((seconds * 1000) as nat) + " btime "@
            + decimal((seconds * 1000) as nat) + " movestogo "@ + decimal(moves_to_go as nat) + " "@,
    }
}

/// The text written to the engine for a list of commands: each line followed
/// by a newline.
pub open spec fn protocol_text(cs: Seq<UciCommand>) -> Seq<char>
    decreases cs.len(),
{
    if cs.len() == 0 {
        Seq::empty()
    } else {
        protocol_text(cs.drop_last()) + uci_line(cs.last()) + "\n"@
    }
}

/// Is `c` a search request?
pub open spec fn is_search(c: UciCommand) -> bool {
    c matches UciCommand::Go { .. }
}

/// The search request every move request ends with: a fixed, equal budget
/// on both clocks.
pub open spec fn search_request() -> UciCommand {
    UciCommand::Go { seconds: SEARCH_SECONDS, moves_to_go: SEARCH_MOVES_TO_GO }
}

/// Does a request name only squares of the board?
pub open spec fn input_wf(input: EngineInput) -> bool {
    match input {
        EngineInput::PlayerMove { chess_move, .. } => chess_move.wf(),
        _ => true,
    }
}

/// The commands for a request. Configuring sends the handshake, a new-game
/// reset, the initial position, the strength option and a ready check, then
/// a search request only when the engine plays White. A player's move sets
/// the position with the move played, then asks for a search.
pub open spec fn commands_for(input: EngineInput) -> Seq<UciCommand> {
    match input {
        EngineInput::Configure { level, engine_is_white, .. } => {
            let setup = seq![
                UciCommand::Uci,
                UciCommand::UciNewGame,
                UciCommand::PositionStart,
                UciCommand::SetStrength { level },
                UciCommand::IsReady,
            ];
            if engine_is_white {
                setup.push(search_request())
            } else {
                setup
            }
        },
        EngineInput::PlayerMove { chess_move, fen } => seq![
            UciCommand::PositionAfter { fen, chess_move },
            search_request(),
        ],
    }
}


/// Relies on `Display for vampirc_uci::UciMessage`, which writes `Uci` as "uci".
#[verifier::external_body]
fn handshake_text() -> (r: String)
    ensures
        r@ == "uci"@,
{
    vampirc_uci::UciMessage::Uci.to_string()
}

/// Relies on `Display for vampirc_uci::UciMessage`, which writes `UciNewGame`
/// as "ucinewgame".
#[verifier::external_body]
fn new_game_text() -> (r: String)
    ensures
        r@ == "ucinewgame"@,
{
    vampirc_uci::UciMessage::UciNewGame.to_string()
}

/// Relies on `Display for vampirc_uci::UciMessage`, which writes `IsReady` as
/// "isready".
#[verifier::external_body]
fn ready_text() -> (r: String)
    ensures
        r@ == "isready"@,
{
    vampirc_uci::UciMessage::IsReady.to_string()
}

/// Relies on `Display for vampirc_uci::UciMessage`, which writes a `Position`
/// from the initial position with no moves as "position startpos".
#[verifier::external_body]
fn start_position_text() -> (r: String)
    ensures
        r@ == "position startpos"@,
{
    vampirc_uci::UciMessage::Position { startpos: true, fen: None, moves: vec![] }.to_string()
}

/// Relies on `Display for vampirc_uci::UciMessage`, which writes `SetOption`
/// as "setoption name N value V", with "<empty>" for an empty value.
#[verifier::external_body]
fn set_option_text(name: &str, value: &str) -> (r: String)
    ensures
        r@ == "setoption name "@ + name@ + " value "@ + if value@.len() == 0 {
            "<empty>"@
        } else {
            value@
        },
{
    let m = vampirc_uci::UciMessage::SetOption { name: name.to_string(), value: Some(value.to_string()) };
    m.to_string()
}

/// Relies on `FromStr for chess::ChessMove`, which reads full coordinate text,
/// and on `Display for vampirc_uci::UciMessage`, which writes a `Position` from
/// FEN text with one move as "position fen F moves M", M being the move's
/// full coordinate text.
#[verifier::external_body]
fn position_after_text(fen: &str, coords: &str) -> (r: String)
    requires
        move_of_coords(coords@) is Some,
    ensures
        r@ == "position fen "@ + fen@ + " moves "@ + coords@,
{
    let m = <chess::ChessMove as std::str::FromStr>::from_str(coords).unwrap();
    let fen = Some(vampirc_uci::UciFen(fen.to_string()));
    vampirc_uci::UciMessage::Position { startpos: false, fen, moves: vec![m] }.to_string()
}

/// Relies on `vampirc_uci::Duration::seconds` and on `Display for
/// vampirc_uci::UciMessage`, which writes a `Go` with both clocks and the moves
/// to go as "go wtime W btime B movestogo N ", clocks in milliseconds.
#[verifier::external_body]
fn go_text(seconds: u32, moves_to_go: u8) -> (r: String)
    ensures
        r@ == "go wtime "@ + decimal((seconds * 1000) as nat) + " btime "@ + decimal(
            (seconds * 1000) as nat,
        ) + " movestogo "@ + decimal(moves_to_go as nat) + " "@,
{
    let clock = Some(vampirc_uci::Duration::seconds(seconds as i64));
    let time_control = vampirc_uci::UciTimeControl::TimeLeft {
        white_time: clock,
        black_time: clock,
        white_increment: None,
        black_increment: None,
        moves_to_go: Some(moves_to_go),
    };
    vampirc_uci::UciMessage::Go { time_control: Some(time_control), search_control: None }.to_string()
}

/// Is every move named in `c` on the board?
pub open spec fn command_wf(c: UciCommand) -> bool {
    match c {
        UciCommand::PositionAfter { chess_move, .. } => chess_move.wf(),
        _ => true,
    }
}

/// The protocol line (without its newline) for a command.
pub fn command_line(c: &UciCommand) -> (r: String)
    requires
        command_wf(*c),
    ensures
        r@ == uci_line(*c),
{
    match c {
        UciCommand::Uci => handshake_text(),
        UciCommand::UciNewGame => new_game_text(),
        UciCommand::PositionStart => start_position_text(),
        UciCommand::SetStrength { level } => set_option_text(STRENGTH_OPTION, level.as_str()),
        UciCommand::IsReady => ready_text(),
        UciCommand::PositionAfter { fen, chess_move } => {
            let coords = encode_coords(*chess_move);
            proof {
                coords_round_trip(*chess_move);
            }
            position_after_text(fen.as_str(), coords.as_str())
        },
        UciCommand::Go { seconds, moves_to_go } => go_text(*seconds, *moves_to_go),
    }
}

/// The commands for a request.
pub fn engine_commands(input: &EngineInput) -> (r: Vec<UciCommand>)
    ensures
        r@ == commands_for(*input),
{
    match input {
        EngineInput::Configure { level, engine_is_white, .. } => {
            let mut v = vec![
                UciCommand::Uci,
                UciCommand::UciNewGame,
                UciCommand::PositionStart,
                UciCommand::SetStrength { level: level.clone() },
                UciCommand::IsReady,
            ];
            if *engine_is_white {
                v.push(UciCommand::Go { seconds: SEARCH_SECONDS, moves_to_go: SEARCH_MOVES_TO_GO });
            }
            assert(v@ =~= commands_for(*input));
            v
        },
        EngineInput::PlayerMove { chess_move, fen } => {
            let v = vec![
                UciCommand::PositionAfter { fen: fen.clone(), chess_move: *chess_move },
                UciCommand::Go { seconds: SEARCH_SECONDS, moves_to_go: SEARCH_MOVES_TO_GO },
            ];
            assert(v@ =~= commands_for(*input));
            v
        },
    }
}

/// The text written to the engine's input for a request: one protocol line
/// per command, each ended by a newline.
pub fn engine_text(input: &EngineInput) -> (r: String)
    requires
        input_wf(*input),
    ensures
        r@ == protocol_text(commands_for(*input)),
{
    let cs = engine_commands(input);
    let mut out = String::new();
    let mut i: usize = 0;
    proof {
        reveal_strlit("\n");
        assert(cs@.subrange(0, 0) =~= Seq::<UciCommand>::empty());
    }
    while i < cs.len()
        invariant
            cs@ == commands_for(*input),
            input_wf(*input),
            i <= cs.len(),
            out@ == protocol_text(cs@.subrange(0, i as int)),
        decreases cs.len() - i,
    {
        assert(command_wf(cs@[i as int]));
        let line = command_line(&cs[i]);
        out.append(line.as_str());
        out.append("\n");
        proof {
            let pre = cs@.subrange(0, i + 1);
            assert(pre.drop_last() =~= cs@.subrange(0, i as int));
        }
        i = i + 1;
    }
    assert(cs@.subrange(0, cs.len() as int) =~= cs@);
    out
}

/// Configuring asks the engine for a search exactly when the engine plays
/// White; otherwise no search is requested until a player's move arrives,
/// and every player's move ends with one.
pub proof fn search_requested_iff_engine_white(
    level: String,
    depth: i64,
    engine_is_white: bool,
    chess_move: Move,
    fen: String,
)
    ensures
        (exists|i: int|
            0 <= i < commands_for(EngineInput::Configure { level, depth, engine_is_white }).len()
                && is_search(
                #[trigger] commands_for(EngineInput::Configure { level, depth, engine_is_white })[i],
            )) <==> engine_is_white,
        is_search(commands_for(EngineInput::PlayerMove { chess_move, fen }).last()),
{
    let cs = commands_for(EngineInput::Configure { level, depth, engine_is_white });
    if engine_is_white {
        assert(is_search(cs[5]));
    } else {
        assert forall|i: int| 0 <= i < cs.len() implies !is_search(#[trigger] cs[i]) by {}
    }
}


/// For each message in a line printed by the engine, in order: the best
/// move's full coordinate text for a best-move report, nothing for any other
/// message.
pub uninterp spec fn uci_reports(line: Seq<char>) -> Seq<Option<Seq<char>>>;

/// Does every run of digits in `line` have at most two digits?
pub open spec fn short_numbers(line: Seq<char>) -> bool {
    forall|i: int|
        0 <= i && i + 2 < line.len() ==> !(#[trigger] is_digit(line[i]) && is_digit(line[i + 1])
            && is_digit(line[i + 2]))
}

/// Does every run of digits in `line` have at most two digits?
pub fn has_short_numbers(line: &str) -> (r: bool)
    ensures
        r == short_numbers(line@),
{
    let n = line.unicode_len();
    let mut run: usize = 0;
    let mut i: usize = 0;
    while i < n
        invariant
            n == line@.len(),
            i <= n,
            run <= 2,
            run <= i,
            forall|k: int| i - run <= k < i ==> is_digit(line@[k]),
            run < i ==> !is_digit(line@[i - run - 1]),
            forall|j: int|
                0 <= j && j + 2 < i ==> !(#[trigger] is_digit(line@[j]) && is_digit(line@[j + 1])
                    && is_digit(line@[j + 2])),
        decreases n - i,
    {
        let c = line.get_char(i);
        if '0' <= c && c <= '9' {
            if run == 2 {
                assert(is_digit(line@[i - 2]) && is_digit(line@[i - 1]) && is_digit(line@[i as int]));
                return false;
            }
            run = run + 1;
        } else {
            run = 0;
        }
        i = i + 1;
    }
    true
}

/// Is `line` free of the upper-case letters 'A' to 'H'?
pub open spec fn no_upper_files(line: Seq<char>) -> bool {
    forall|i: int| 0 <= i < line.len() ==> !('A' <= #[trigger] line[i] && line[i] <= 'H')
}

/// Is `line` free of the upper-case letters 'A' to 'H'?
pub fn has_no_upper_files(line: &str) -> (r: bool)
    ensures
        r == no_upper_files(line@),
{
    let n = line.unicode_len();
    let mut i: usize = 0;
    while i < n
        invariant
            n == line@.len(),
            i <= n,
            forall|k: int| 0 <= k < i ==> !('A' <= #[trigger] line@[k] && line@[k] <= 'H'),
        decreases n - i,
    {
        let c = line.get_char(i);
        if 'A' <= c && c <= 'H' {
            return false;
        }
        i = i + 1;
    }
    true
}

/// A line that the parser reads without panicking: no run of three or more
/// digits, and no upper-case file letter.
pub open spec fn parser_safe(line: Seq<char>) -> bool {
    short_numbers(line) && no_upper_files(line)
}

/// Relies on `vampirc_uci::parse_with_unknown`, which reads the messages of a
/// line from its text alone (a line it does not recognise is one unknown
/// message), and on `Display for chess::ChessMove`, which writes a move as
/// full coordinate text. The parser unwraps the numbers it reads into fixed
/// widths (up to three digits into a byte), so a run of three or more digits
/// may make it panic; shorter runs always fit. Its grammar also takes
/// upper-case files, which `chess::Square::from_str` then refuses and the
/// parser unwraps.
#[verifier::external_body]
fn parse_reports(line: &str) -> (r: Vec<Option<String>>)
    requires
        parser_safe(line@),
    ensures
        r@.len() == uci_reports(line@).len(),
        forall|i: int|
            0 <= i < r@.len() ==> match #[trigger] r@[i] {
                Some(t) => uci_reports(line@)[i] == Some(t@),
                None => uci_reports(line@)[i] is None,
            },
        forall|i: int|
            0 <= i < r@.len() && #[trigger] r@[i] is Some ==> exists|m: Move|
                m.wf() && r@[i]->0@ == coord_text(m),
{
    let messages = vampirc_uci::parse_with_unknown(line);
    messages.into_iter().map(|m| match m {
        vampirc_uci::UciMessage::BestMove { best_move, .. } => Some(best_move.to_string()),
        _ => None,
    }).collect()
}

/// What the bridge publishes for a line's messages: one best move for each
/// best-move report, in order, and nothing for any other message.
pub open spec fn published(reports: Seq<Option<Seq<char>>>) -> Seq<EngineOutput>
    decreases reports.len(),
{
    if reports.len() == 0 {
        Seq::empty()
    } else {
        let rest = published(reports.drop_last());
        match reports.last() {
            Some(t) => match move_of_coords(t) {
                Some(m) => rest.push(EngineOutput::BestMove { chess_move: m }),
                None => rest,
            },
            None => rest,
        }
    }
}

/// What the bridge publishes for a line printed by the engine: a line that
/// the parser cannot take safely (a run of three or more digits, or an
/// upper-case file letter) publishes nothing; any other line publishes its
/// best-move reports.
pub open spec fn published_for_line(line: Seq<char>) -> Seq<EngineOutput> {
    if parser_safe(line) {
        published(uci_reports(line))
    } else {
        Seq::empty()
    }
}

/// What the bridge publishes for one line printed by the engine.
pub fn receive_line(line: &str) -> (r: Vec<EngineOutput>)
    ensures
        r@ == published_for_line(line@),
        forall|i: int| 0 <= i < r@.len() ==> (#[trigger] r@[i] matches EngineOutput::BestMove { chess_move } && chess_move.wf()),
{
    if !has_short_numbers(line) || !has_no_upper_files(line) {
        return Vec::new();
    }
    let reports = parse_reports(line);
    let ghost rs = uci_reports(line@);
    let mut out: Vec<EngineOutput> = Vec::new();
    let mut i: usize = 0;
    assert(rs.subrange(0, 0) =~= Seq::<Option<Seq<char>>>::empty());
    while i < reports.len()
        invariant
            rs == uci_reports(line@),
            reports@.len() == rs.len(),
            forall|j: int|
                0 <= j < reports@.len() ==> match #[trigger] reports@[j] {
                    Some(t) => rs[j] == Some(t@),
                    None => rs[j] is None,
                },
            forall|j: int|
                0 <= j < reports@.len() && #[trigger] reports@[j] is Some ==> exists|m: Move|
                    m.wf() && reports@[j]->0@ == coord_text(m),
            i <= reports.len(),
            out@ == published(rs.subrange(0, i as int)),
            forall|j: int| 0 <= j < out@.len() ==> (#[trigger] out@[j] matches EngineOutput::BestMove { chess_move } && chess_move.wf()),
        decreases reports.len() - i,
    {
        proof {
            let pre = rs.subrange(0, i + 1);
            assert(pre.drop_last() =~= rs.subrange(0, i as int));
            assert(pre.last() == rs[i as int]);
        }
        match &reports[i] {
            Some(t) => {
                proof {
                    let m = choose|m: Move| m.wf() && reports@[i as int]->0@ == coord_text(m);
                    coords_round_trip(m);
                }
                match decode_coords(t.as_str()) {
                    Some(m) => {
                        out.push(EngineOutput::BestMove { chess_move: m });
                    },
                    None => {},
                }
            },
            None => {},
        }
        i = i + 1;
    }
    assert(rs.subrange(0, reports.len() as int) =~= rs);
    out
}

proof fn reports_without_best_move_publish_nothing(reports: Seq<Option<Seq<char>>>)
    requires
        forall|i: int| 0 <= i < reports.len() ==> #[trigger] reports[i] is None,
    ensures
        published(reports) == Seq::<EngineOutput>::empty(),
    decreases reports.len(),
{
    if reports.len() > 0 {
        let rest = reports.drop_last();
        assert forall|i: int| 0 <= i < rest.len() implies #[trigger] rest[i] is None by {
            assert(rest[i] == reports[i]);
        }
        reports_without_best_move_publish_nothing(rest);
        assert(reports.last() == reports[reports.len() - 1]);
    }
}

proof fn published_at_most_reports(reports: Seq<Option<Seq<char>>>)
    ensures
        published(reports).len() <= reports.filter(|o: Option<Seq<char>>| o is Some).len(),
    decreases reports.len(),
{
    reveal(Seq::filter);
    if reports.len() > 0 {
        published_at_most_reports(reports.drop_last());
    }
}


/// A line printed by the engine that holds no best-move report publishes
/// nothing.
pub proof fn lines_without_best_move_publish_nothing(line: Seq<char>)
    requires
        forall|i: int| 0 <= i < uci_reports(line).len() ==> #[trigger] uci_reports(line)[i] is None,
    ensures
        published_for_line(line) == Seq::<EngineOutput>::empty(),
{
    reports_without_best_move_publish_nothing(uci_reports(line));
}

/// Every item published for a line comes from one of its best-move reports:
/// there are never more items than such reports.
pub proof fn published_only_for_best_moves(line: Seq<char>)
    ensures
        published_for_line(line).len() <= uci_reports(line).filter(|o: Option<Seq<char>>| o is Some).len(),
{
    published_at_most_reports(uci_reports(line));
}

} // verus!
