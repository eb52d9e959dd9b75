use chess_tutor::ffi::{game_apply, game_apply_timed, game_legal_moves, game_new_standard, game_new_timed, GameSnapshot};
use chess_tutor::game::{Game, GameStatus, PlayerKind};

#[test]
fn game_apply_roundtrips() {
    let game = game_new_standard();
    let (next, report) = game_apply(&game, "e2e4").unwrap();
    assert_eq!(report.entry.san, "e4");
    let moves = game_legal_moves(&next).unwrap();
    assert_eq!(moves.len(), 20);
    assert_eq!(next.history_uci, vec!["e2e4".to_string()]);
}

#[test]
fn game_apply_rejects_illegal_move() {
    let game = game_new_standard();
    let err = game_apply(&game, "e2e5").unwrap_err();
    assert!(err.starts_with("invalid FEN: illegal move e2e5: "));
}

#[test]
fn timed_snapshot_keeps_its_clock() {
    let game = game_new_timed(60_000, 1_000);
    let (next, _) = game_apply_timed(&game, "d2d4", 2_000).unwrap();
    let tc = next.time_control.unwrap();
    assert_eq!(tc.white_remaining_ms, Some(59_000));
    assert_eq!(tc.black_remaining_ms, Some(60_000));
}

#[test]
fn snapshot_of_a_game_rebuilds_the_same_game() {
    let mut g = Game::new_standard(PlayerKind::Human, PlayerKind::Bot);
    for m in ["e2e4", "e7e5", "g1f3", "b8c6"] {
        g.apply(m).unwrap();
    }
    let snap = GameSnapshot::from_game(&g);
    assert_eq!(snap.history_uci.len(), 4);
    let back = snap.hydrate().unwrap();
    assert_eq!(back.fen(), g.fen());
    assert_eq!(back.status(), GameStatus::Ongoing);
    let ucis: Vec<String> = back.history().iter().map(|e| e.uci.clone()).collect();
    assert_eq!(ucis, vec!["e2e4", "e7e5", "g1f3", "b8c6"]);
    assert_eq!(
        back.fen(),
        "r1bqkbnr/pppp1ppp/2n5/4p3/4P3/5N2/PPPP1PPP/RNBQKB1R w KQkq - 2 3"
    );
}

#[test]
fn snapshot_of_a_finished_game_rebuilds_its_mate() {
    let mut g = Game::new_standard(PlayerKind::Human, PlayerKind::Human);
    for m in ["f2f3", "e7e5", "g2g4", "d8h4"] {
        g.apply(m).unwrap();
    }
    let back = GameSnapshot::from_game(&g).hydrate().unwrap();
    assert_eq!(back.status(), g.status());
    assert_eq!(back.fen(), g.fen());
}

#[test]
fn timed_snapshot_flags_a_slow_mover() {
    let game = game_new_timed(1_000, 0);
    let err = game_apply_timed(&game, "e2e4", 5_000).unwrap_err();
    assert_eq!(err, "engine error: flag fell: White ran out of time");
}

#[test]
fn timed_snapshot_refuses_an_illegal_move_in_time() {
    let game = game_new_timed(60_000, 0);
    let err = game_apply_timed(&game, "e2e5", 1_000).unwrap_err();
    assert!(err.starts_with("invalid FEN: illegal move e2e5: "));
}

#[test]
fn new_snapshots_start_from_the_standard_position() {
    let start = "rnbqkbnr/pppppppp/8/8/8/8/PPPPPPPP/RNBQKBNR w KQkq - 0 1";
    assert_eq!(game_new_standard().fen, start);
    let timed = game_new_timed(300_000, 2_000);
    assert_eq!(timed.fen, start);
    assert!(timed.history_uci.is_empty());
    let (next, _) = game_apply(&game_new_standard(), "e2e4").unwrap();
    assert_eq!(next.fen, start);
}
