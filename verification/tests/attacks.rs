use chess_tutor::attacks_view::build;
use chess_tutor::position::Position;

#[test]
fn startpos_has_no_attacks_between_sides() {
    let pos = Position::from_fen("rnbqkbnr/pppppppp/8/8/8/8/PPPPPPPP/RNBQKBNR w KQkq - 0 1").unwrap();
    let view = build(&pos);
    assert!(view.white.attacks.is_empty());
    assert!(view.black.attacks.is_empty());
}

#[test]
fn case_study_lists_qc4_attacking_qe6() {
    let pos =
        Position::from_fen("1r4nr/p3k3/4qpp1/4b2p/2Q5/8/PPPP1PPP/R1B1R1K1 w - - 0 1").unwrap();
    let view = build(&pos);
    let record = view
        .white
        .attacks
        .iter()
        .find(|r| r.attacker == "Qc4" && r.target == "qe6")
        .unwrap_or_else(|| panic!("Qc4→qe6 missing: {view:#?}"));
    assert_eq!(record.target_points, 9);
    assert!(record.see_verdict == "even trade" || record.see_verdict == "wins material");
}

#[test]
fn highest_value_targets_sort_first() {
    let pos = Position::from_fen("k7/8/8/8/3q4/8/3R4/3KR3 w - - 0 1").unwrap();
    let view = build(&pos);
    assert!(!view.white.attacks.is_empty(), "{view:#?}");
    let first = &view.white.attacks[0];
    assert_eq!(first.target_kind, "queen");
}

#[test]
fn attack_records_carry_counts_and_verdicts() {
    // White Rd2 hits the black queen on d4, which the black king cannot
    // reach; Black's queen hits the rook on d2 (defended by the king).
    let pos = Position::from_fen("k7/8/8/8/3q4/8/3R4/3KR3 w - - 0 1").unwrap();
    let view = build(&pos);
    assert_eq!(view.white.side, "white");
    let r = &view.white.attacks[0];
    assert_eq!((r.attacker.as_str(), r.target.as_str()), ("Rd2", "qd4"));
    assert_eq!(r.attacker_square, "d2");
    assert_eq!(r.attacker_kind, "rook");
    assert_eq!(r.attacker_count, 1);
    assert_eq!(r.defender_count, 0);
    assert_eq!(r.see_verdict, "wins material");
    let q = view.black.attacks.iter().find(|r| r.attacker == "qd4" && r.target == "Rd2").unwrap();
    assert_eq!(q.target_points, 5);
    assert_eq!(q.defender_count, 1);
    assert_eq!(q.see_verdict, "loses material");
}
