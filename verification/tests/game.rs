use chess_tutor::analysis::AttackMap;
use chess_tutor::game::{analyse_game_position, Game, GameStatus, PlayerKind, Side, TimeControl};
use chess_tutor::error::Error;

#[test]
fn startpos_has_20_legal_moves() {
    let g = Game::new_standard(PlayerKind::Human, PlayerKind::Human);
    assert_eq!(g.legal_moves().len(), 20);
}

#[test]
fn applies_and_undoes_e4() {
    let mut g = Game::new_standard(PlayerKind::Human, PlayerKind::Human);
    let report = g.apply("e2e4").expect("e4 is legal from startpos");
    assert_eq!(report.entry.san, "e4");
    assert_eq!(g.side_to_move(), Side::Black);
    assert_eq!(g.history().len(), 1);

    let undone = g.undo().expect("history non-empty");
    assert_eq!(undone.san, "e4");
    assert_eq!(g.side_to_move(), Side::White);
    assert!(g.history().is_empty());
}

#[test]
fn rejects_illegal_move() {
    let mut g = Game::new_standard(PlayerKind::Human, PlayerKind::Human);
    assert!(g.apply("e2e5").is_err());
}

#[test]
fn detects_fools_mate() {
    let mut g = Game::new_standard(PlayerKind::Human, PlayerKind::Human);
    for uci in ["f2f3", "e7e5", "g2g4", "d8h4"] {
        g.apply(uci).unwrap();
    }
    assert!(matches!(
        g.status(),
        GameStatus::Checkmate { winner: Side::Black }
    ));
}

#[test]
fn undo_restores_the_fen_before_the_move() {
    let mut g = Game::new_standard(PlayerKind::Human, PlayerKind::Human);
    let before = g.fen();
    g.apply("g1f3").unwrap();
    assert_ne!(g.fen(), before);
    g.undo().unwrap();
    assert_eq!(g.fen(), before);
    assert_eq!(g.status(), GameStatus::Ongoing);
    assert!(g.undo().is_none());
}

#[test]
fn game_over_refuses_moves_with_status_text() {
    let mut g = Game::new_standard(PlayerKind::Human, PlayerKind::Bot);
    g.resign(Side::White);
    assert_eq!(g.status(), GameStatus::Resigned { winner: Side::Black });
    match g.apply("e2e4") {
        Err(Error::Engine(m)) => {
            assert_eq!(m, "cannot apply move — game status is Resigned { winner: Black }")
        }
        other => panic!("unexpected {other:?}"),
    }
    assert_eq!(g.history().len(), 0);
}

#[test]
fn bad_uci_and_illegal_move_errors() {
    let mut g = Game::new_standard(PlayerKind::Human, PlayerKind::Human);
    match g.apply("zz") {
        Err(Error::InvalidFen(m)) => assert!(m.starts_with("bad UCI zz: ")),
        other => panic!("unexpected {other:?}"),
    }
    match g.apply("e2e5") {
        Err(Error::InvalidFen(m)) => assert!(m.starts_with("illegal move e2e5: ")),
        other => panic!("unexpected {other:?}"),
    }
}

#[test]
fn from_fen_rejects_garbage_and_canonicalises() {
    assert!(matches!(
        Game::from_fen("not a fen", PlayerKind::Human, PlayerKind::Human),
        Err(Error::InvalidFen(_))
    ));
    let g = Game::from_fen(
        "rnbqkbnr/pppppppp/8/8/4P3/8/PPPP1PPP/RNBQKBNR b KQkq e3 0 1",
        PlayerKind::Human,
        PlayerKind::Bot,
    )
    .unwrap();
    // No black pawn can take on e3, so the written FEN drops the square.
    assert_eq!(g.fen(), "rnbqkbnr/pppppppp/8/8/4P3/8/PPPP1PPP/RNBQKBNR b KQkq - 0 1");
    assert_eq!(g.player_to_move(), PlayerKind::Bot);
}

#[test]
fn timed_game_charges_the_mover_and_adds_increment() {
    let mut g = Game::new_standard(PlayerKind::Human, PlayerKind::Human)
        .with_time_control(TimeControl::fischer(10_000, 500));
    assert!(g.has_time_control());
    g.apply_timed("e2e4", 3_000).unwrap();
    assert_eq!(g.remaining_ms(Side::White), Some(7_500));
    assert_eq!(g.remaining_ms(Side::Black), Some(10_000));
    // An illegal move costs nothing.
    assert!(g.apply_timed("e7e4", 1_000).is_err());
    assert_eq!(g.remaining_ms(Side::Black), Some(10_000));
}

#[test]
fn timed_game_flag_falls() {
    let mut g = Game::new_standard(PlayerKind::Human, PlayerKind::Human)
        .with_time_control(TimeControl::fischer(1_000, 0));
    assert!(g.apply_timed("e2e4", 1_001).is_err());
    assert_eq!(g.status(), GameStatus::TimedOut { winner: Side::Black });
    assert!(g.history().is_empty());
}

#[test]
fn parse_move_accepts_san_and_uci() {
    let g = Game::new_standard(PlayerKind::Human, PlayerKind::Human);
    assert_eq!(g.parse_move("Nf3"), Ok("g1f3".to_string()));
    assert_eq!(g.parse_move("e2e4"), Ok("e2e4".to_string()));
    assert!(g.parse_move("Ke2").is_err());
    assert_eq!(g.legal_moves_san().len(), 20);
}

#[test]
fn game_position_feeds_the_attack_map() {
    let g = Game::new_standard(PlayerKind::Human, PlayerKind::Human);
    let am = AttackMap::from_position(g.position());
    assert_eq!(am.count(20, chess_tutor::position::Color::White), 2); // e3: pawns d2, f2
    let a = analyse_game_position(&g).unwrap();
    assert_eq!(a.fen, g.fen());
}
