use chess_tutor::forcing_view::build;
use chess_tutor::position::Position;

#[test]
fn startpos_has_zero_forcing_moves() {
    let pos = Position::from_fen("rnbqkbnr/pppppppp/8/8/8/8/PPPPPPPP/RNBQKBNR w KQkq - 0 1").unwrap();
    let view = build(&pos);
    assert!(view.white.checks.is_empty());
    assert!(view.white.captures.is_empty());
    assert!(view.white.promotions.is_empty());
    assert!(view.black.checks.is_empty());
}

#[test]
fn case_study_white_to_move_finds_qxe6_with_check() {
    let pos =
        Position::from_fen("1r4nr/p3k3/4qpp1/4b2p/2Q5/8/PPPP1PPP/R1B1R1K1 w - - 0 1").unwrap();
    let view = build(&pos);
    assert!(view.white.is_to_move);
    let qxe6_check = view
        .white
        .checks
        .iter()
        .find(|m| m.san.starts_with("Qxe6"))
        .unwrap_or_else(|| panic!("no Qxe6+ in white checks: {view:#?}"));
    assert!(qxe6_check.gives_check);
    assert!(qxe6_check.captures.is_some());
    let cap = qxe6_check.captures.as_ref().unwrap();
    assert_eq!(cap.piece, "qe6");
    assert_eq!(cap.classical_points, 9);
}

#[test]
fn opponent_via_null_move_lists_blacks_standing_options() {
    let pos = Position::from_fen("rnbqkbnr/pppppppp/8/8/4P3/8/PPPP1PPP/RNBQKBNR b KQkq - 0 1")
        .unwrap();
    let view = build(&pos);
    assert!(view.black.is_to_move);
    assert!(!view.white.is_to_move);
    assert!(view.white.checks.is_empty());
    assert!(view.white.captures.is_empty());
}

#[test]
fn promotion_move_surfaces_with_promoted_piece_letter() {
    let pos = Position::from_fen("k7/6P1/8/8/8/8/8/K7 w - - 0 1").unwrap();
    let view = build(&pos);
    let promos = &view.white.promotions;
    assert!(!promos.is_empty(), "expected promotions: {view:#?}");
    let pieces: Vec<&str> = promos
        .iter()
        .filter_map(|m| m.promotion_piece.as_deref())
        .collect();
    assert!(pieces.contains(&"q"));
    assert!(pieces.contains(&"r"));
    assert!(pieces.contains(&"b"));
    assert!(pieces.contains(&"n"));
}

#[test]
fn side_in_check_has_empty_opponent_forcing_list() {
    let pos = Position::from_fen("4r2k/8/8/8/8/8/8/4K3 w - - 0 1").unwrap();
    let view = build(&pos);
    assert!(view.white.is_to_move);
    assert!(!view.black.is_to_move);
    assert!(view.black.checks.is_empty());
    assert!(view.black.captures.is_empty());
}

#[test]
fn en_passant_capture_names_the_pawn_beside_the_target() {
    let pos = Position::from_fen("4k3/8/8/3pP3/8/8/8/4K3 w - d6 0 2").unwrap();
    let view = build(&pos);
    let ep = view.white.captures.iter().find(|m| m.uci == "e5d6").unwrap();
    let cap = ep.captures.as_ref().unwrap();
    assert_eq!(cap.piece, "pd5");
    assert_eq!(cap.square, "d5");
    assert_eq!(cap.classical_points, 1);
    assert_eq!(cap.see_verdict, "wins material");
    assert_eq!(ep.mover, "Pe5");
    assert_eq!(ep.san, "exd6");
    assert!(ep.promotion_piece.is_none());
    assert_eq!(view.white.side, "white");
    assert_eq!(view.black.side, "black");
}
