use chess_tutor::alignments_view::build;
use chess_tutor::position::Position;

#[test]
fn case_study_black_qe6_be5_re1_alignment_surfaces() {
    let pos =
        Position::from_fen("1r4nr/p3k3/4qpp1/4b2p/2Q5/8/PPPP1PPP/R1B1R1K1 w - - 0 1").unwrap();
    let view = build(&pos, false);

    let alignment = view
        .black
        .discovered_attack_candidates
        .iter()
        .find(|r| r.slider == "qe6" && r.blocker == "be5" && r.target == "Re1")
        .unwrap_or_else(|| {
            panic!("qe6/be5/Re1 alignment missing: {view:#?}");
        });
    assert_eq!(alignment.ray, "e-file");
    assert!(
        alignment.target_more_valuable,
        "rook (5) > bishop (3) — must be flagged as default-shown",
    );
}

#[test]
fn case_study_white_re1_pin_skewer_against_be5_and_qe6_surfaces() {
    let pos =
        Position::from_fen("1r4nr/p3k3/4qpp1/4b2p/2Q5/8/PPPP1PPP/R1B1R1K1 w - - 0 1").unwrap();
    let view = build(&pos, false);

    let pin = view
        .white
        .pin_skewer_candidates
        .iter()
        .find(|r| r.slider == "Re1" && r.blocker == "be5")
        .unwrap_or_else(|| panic!("Re1 pin/skewer missing: {view:#?}"));
    assert_eq!(pin.target, "qe6");
    assert_eq!(pin.ray, "e-file");
}

#[test]
fn low_value_target_filtered_by_default() {
    let pos = Position::from_fen("k7/8/8/1p6/8/8/1B6/1R2K3 w - - 0 1").unwrap();
    let filtered = build(&pos, false);
    let unfiltered = build(&pos, true);
    let count_filtered = filtered.white.discovered_attack_candidates.len();
    let count_unfiltered = unfiltered.white.discovered_attack_candidates.len();
    assert!(
        count_unfiltered >= count_filtered,
        "include_low_value should add entries: {count_filtered} → {count_unfiltered}",
    );
}

#[test]
fn low_value_discovery_is_listed_only_on_request() {
    let pos = Position::from_fen("k7/8/8/1p6/8/8/1B6/1R2K3 w - - 0 1").unwrap();
    assert!(build(&pos, false).white.discovered_attack_candidates.is_empty());
    let all = build(&pos, true);
    assert_eq!(all.white.discovered_attack_candidates.len(), 1);
    let r = &all.white.discovered_attack_candidates[0];
    assert_eq!((r.slider.as_str(), r.blocker.as_str(), r.target.as_str()), ("Rb1", "Bb2", "pb5"));
    assert_eq!(r.slider_kind, "rook");
    assert_eq!(r.blocker_color, "white");
    assert_eq!(r.target_color, "black");
    assert_eq!(r.ray, "b-file");
    assert!(!r.target_more_valuable);
    assert_eq!(all.white.side, "white");
    assert_eq!(all.black.side, "black");
}

#[test]
fn alignments_are_ordered_by_slider_then_blocker_square() {
    let pos = Position::from_fen("3k4/6q1/8/8/3n4/8/8/Q2R2K1 w - - 0 1").unwrap();
    let view = build(&pos, true);
    let keys: Vec<(String, String)> = view
        .white
        .pin_skewer_candidates
        .iter()
        .map(|r| (r.slider_square.clone(), r.blocker_square.clone()))
        .collect();
    assert_eq!(
        keys,
        vec![("a1".to_string(), "d4".to_string()), ("d1".to_string(), "d4".to_string())]
    );
    assert_eq!(view.white.pin_skewer_candidates[0].target, "qg7");
    assert_eq!(view.white.pin_skewer_candidates[0].ray, "a1-h8 diagonal");
    assert_eq!(view.white.pin_skewer_candidates[1].target, "kd8");
    assert_eq!(build(&pos, false).white.pin_skewer_candidates.len(), 1);
}
