use chess_tutor::uci_shim::{
    bestmove_line, mix_seed, parse_position_command, PositionSpec, UciAction, UciSession,
};

fn moves_of(line: &str) -> Vec<String> {
    parse_position_command(line).moves
}

#[test]
fn position_startpos_with_and_without_moves() {
    let c = parse_position_command("position startpos");
    assert!(matches!(c.spec, PositionSpec::StartPos));
    assert!(c.moves.is_empty());
    let c = parse_position_command("position startpos moves e2e4 e7e5");
    assert!(matches!(c.spec, PositionSpec::StartPos));
    assert_eq!(c.moves, vec!["e2e4".to_string(), "e7e5".to_string()]);
    assert!(matches!(parse_position_command("position").spec, PositionSpec::StartPos));
}

#[test]
fn position_fen_with_moves() {
    let c = parse_position_command(
        "position fen rnbqkbnr/pppppppp/8/8/4P3/8/PPPP1PPP/RNBQKBNR b KQkq e3 0 1 moves c7c5 g1f3",
    );
    match c.spec {
        PositionSpec::Fen(f) => {
            assert_eq!(f, "rnbqkbnr/pppppppp/8/8/4P3/8/PPPP1PPP/RNBQKBNR b KQkq e3 0 1")
        }
        _ => panic!("expected a FEN"),
    }
    assert_eq!(moves_of("position fen 8/8/8/8/8/8/8/K6k w - - 0 1 moves a1a2"), vec!["a1a2".to_string()]);
}

#[test]
fn position_garbage_spec_is_kept_for_the_error() {
    match parse_position_command("position nonsense moves e2e4").spec {
        PositionSpec::Unrecognised(s) => assert_eq!(s, "nonsense"),
        _ => panic!("expected an unrecognised spec"),
    }
}

#[test]
fn uci_session_dialogue() {
    let mut s = UciSession::new(42, 8);
    assert_eq!(s.game_seed(), mix_seed(42, 0));
    match s.step("uci\n") {
        UciAction::Reply(m) => assert_eq!(m, "id name chess-tutor-bot\nid author chess-tutor\nuciok\n"),
        _ => panic!("uci must be answered"),
    }
    match s.step("  isready ") {
        UciAction::Reply(m) => assert_eq!(m, "readyok\n"),
        _ => panic!("isready must be answered"),
    }
    match s.step("ucinewgame") {
        UciAction::NewGame { seed } => assert_eq!(seed, mix_seed(42, 1)),
        _ => panic!("expected a new game"),
    }
    assert_eq!(s.games_started(), 1);
    assert_eq!(s.game_seed(), mix_seed(42, 1));
    match s.step("position startpos moves e2e4") {
        UciAction::SetPosition(c) => assert_eq!(c.moves, vec!["e2e4".to_string()]),
        _ => panic!("expected a position"),
    }
    assert!(matches!(s.step("go wtime 1000 btime 1000"), UciAction::Search { depth: 8 }));
    assert!(matches!(s.step("go depth 3"), UciAction::Search { depth: 3 }));
    assert!(matches!(s.step("go depth 0"), UciAction::Search { depth: 1 }));
    assert!(matches!(s.step("stop"), UciAction::Nothing));
    assert!(matches!(s.step("setoption name Hash value 16"), UciAction::Nothing));
    assert!(matches!(s.step(""), UciAction::Nothing));
    assert!(matches!(s.step("quit"), UciAction::Quit));
}

#[test]
fn bestmove_replies() {
    assert_eq!(bestmove_line(Some("e2e4")), "bestmove e2e4\n");
    assert_eq!(bestmove_line(None), "bestmove 0000\n");
}

#[test]
fn game_seeds_are_distinct_within_a_run() {
    let mut seen = std::collections::HashSet::new();
    for base in [0u64, 42, u64::MAX] {
        seen.clear();
        for i in 0..200u64 {
            assert!(seen.insert(mix_seed(base, i)));
        }
    }
    assert_eq!(mix_seed(42, 0), mix_seed(42, 0));
}

#[test]
fn distinct_base_seeds_give_distinct_game_seeds() {
    assert_ne!(mix_seed(1, 5), mix_seed(2, 5));
    assert_ne!(mix_seed(42, 0), mix_seed(42, 1));
}
