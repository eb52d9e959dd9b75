use chess_tutor::game::GameStatus;
use chess_tutor::play_session::{parse_command, PlayCommand, PlaySession};

fn session() -> PlaySession {
    PlaySession::new(None, 0, true, false, false)
}

#[test]
fn commands_are_read_after_trimming() {
    assert!(matches!(parse_command("   "), PlayCommand::Empty));
    assert!(matches!(parse_command(" quit "), PlayCommand::Quit));
    assert!(matches!(parse_command("exit"), PlayCommand::Quit));
    assert!(matches!(parse_command("?"), PlayCommand::Help));
    assert!(matches!(parse_command("attackers"), PlayCommand::AttackersUsage));
    match parse_command("attackers   e4 ") {
        PlayCommand::Attackers(a) => assert_eq!(a, "e4"),
        other => panic!("{other:?}"),
    }
    match parse_command("attackers attackers K") {
        PlayCommand::Attackers(a) => assert_eq!(a, "K"),
        other => panic!("{other:?}"),
    }
    match parse_command("see e5") {
        PlayCommand::See(a) => assert_eq!(a, "e5"),
        other => panic!("{other:?}"),
    }
    match parse_command("Nf3") {
        PlayCommand::Move(m) => assert_eq!(m, "Nf3"),
        other => panic!("{other:?}"),
    }
}

#[test]
fn greeting_and_prompt_lines() {
    let s = session();
    let g = s.greeting();
    assert!(g.starts_with("chess-tutor play — type moves as SAN"));
    assert!(!g.contains("clock:"));
    assert_eq!(s.to_move_line().unwrap(), "White to move.\n");
    assert!(s.board_view().is_none());
    let timed = PlaySession::new(Some(300), 2, true, false, true);
    assert!(timed.greeting().ends_with("clock: 300s + 2s increment\n"));
    assert!(timed.to_move_line().is_none());
    assert_eq!(timed.game().remaining_ms(chess_tutor::game::Side::White), Some(300_000));
    let board = timed.board_view().unwrap();
    assert!(board.starts_with("\n  a b c d e f g h \n8 r n b q k b n r 8\n"));
}

#[test]
fn moves_undo_fen_and_resign() {
    let mut s = session();
    let r = s.handle("moves", 0);
    assert!(r.text.starts_with("20 legal moves: "), "{}", r.text);
    assert!(r.text.contains("Nf3"));
    assert!(!r.done);
    let r = s.handle("e4", 0);
    assert_eq!(r.text, "played e4 (Unclassified)\n");
    assert!(!r.done);
    let r = s.handle("fen", 0);
    assert_eq!(r.text, "rnbqkbnr/pppppppp/8/8/4P3/8/PPPP1PPP/RNBQKBNR b KQkq - 0 1\n");
    let r = s.handle("undo", 0);
    assert_eq!(r.text, "undid e4\n");
    let r = s.handle("undo", 0);
    assert_eq!(r.text, "nothing to undo\n");
    let r = s.handle("resign", 0);
    assert_eq!(r.text, "status: Resigned { winner: Black }\n");
    assert!(!r.done);
    let r = s.handle("e4", 0);
    assert_eq!(
        r.text,
        "rejected: engine error: cannot apply move — game status is Resigned { winner: Black }\n"
    );
}

#[test]
fn rejected_input_and_usage_lines() {
    let mut s = session();
    assert_eq!(
        s.handle("Ke5", 0).text,
        "rejected: not a legal move in SAN or UCI: \"Ke5\"\n"
    );
    assert_eq!(
        s.handle("attackers", 0).text,
        "usage: attackers <square> | attackers <piece-letter>\n"
    );
    assert_eq!(s.handle("see", 0).text, "usage: see <square>   e.g. `see e5`\n");
    assert_eq!(s.handle("", 0).text, "");
    assert!(s.handle("help", 0).text.starts_with("moves: SAN (e4, Nf3, O-O, Qxf7#)"));
    assert!(s.handle("quit", 0).done);
}

#[test]
fn inspection_commands_report_on_the_position() {
    let mut s = session();
    assert_eq!(s.handle("hanging", 0).text, "no hanging pieces.\n");
    assert_eq!(s.handle("attackers K", 0).text, "e1 (K):\n  White: Qd1\n  Black: —\n");
    assert_eq!(
        s.handle("see e4", 0).text,
        "e4:\n  (empty — SEE is only meaningful on occupied squares)\n"
    );
    assert_eq!(
        s.handle("attackers z9", 0).text,
        "unrecognised target 'z9'. Use a square (e.g. e4) or a piece letter (K Q R B N P, lowercase for black).\n"
    );
}

#[test]
fn checkmate_ends_the_session_with_the_final_board() {
    let mut s = PlaySession::new(None, 0, true, false, true);
    for m in ["f3", "e5", "g4"] {
        assert!(!s.handle(m, 0).done);
    }
    let r = s.handle("Qh4#", 0);
    assert!(r.done);
    assert!(r.text.starts_with("played Qh4# (Unclassified)\n\n  a b c d e f g h \n"), "{}", r.text);
    assert!(r.text.contains("\x1b[7m"));
    assert!(r.text.ends_with("game over: Checkmate { winner: Black }\n"), "{}", r.text);
    assert_eq!(s.game().status(), GameStatus::Checkmate { winner: chess_tutor::game::Side::Black });
}

#[test]
fn flip_toggles_the_board() {
    let mut s = PlaySession::new(None, 0, true, false, true);
    assert!(s.board_view().unwrap().contains("  a b c d e f g h"));
    assert_eq!(s.handle("flip", 0).text, "");
    assert!(s.board_view().unwrap().contains("  h g f e d c b a"));
    s.handle("flip", 0);
    assert!(s.board_view().unwrap().contains("  a b c d e f g h"));
}

#[test]
fn a_flag_fall_is_reported_and_the_game_is_lost() {
    let mut s = PlaySession::new(Some(1), 0, true, false, false);
    let r = s.handle("e4", 5_000);
    assert_eq!(r.text, "rejected: engine error: flag fell: White ran out of time\n");
    assert!(!r.done);
    assert_eq!(s.game().status(), GameStatus::TimedOut { winner: chess_tutor::game::Side::Black });
}
