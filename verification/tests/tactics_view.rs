use chess_tutor::tactics_view::{
    render_text, CheckFollowupView, CheckFollowupsSide, CheckFollowupsView, DefusalMoveView,
    DefusalsView, EscapeView, LatentSide, LatentThreatView, LatentView, OverloadedView,
    ReplyFollowupView, SideTactics, TacticHitView, TacticsView,
};

fn quiet_side(side: &str, to_move: bool) -> SideTactics {
    SideTactics {
        side: side.to_string(),
        to_move,
        skipped: None,
        best_tactic: None,
        overloaded: vec![],
    }
}

fn quiet_view() -> TacticsView {
    TacticsView {
        white: quiet_side("white", true),
        black: quiet_side("black", false),
        latent: None,
        check_followups: None,
        defusals: None,
    }
}

fn removing_defender_hit() -> TacticHitView {
    TacticHitView {
        pattern: "RemovingDefender".to_string(),
        mate_pattern: None,
        sacrifice: false,
        primary_square: "e4".to_string(),
        primary_square_pre_move_piece: Some("Pe4".to_string()),
        targets: vec!["Nf5".to_string()],
        material_gain: Some(320),
        confidence: "High".to_string(),
        pv_ply: 3,
        escape: None,
    }
}

#[test]
fn quiet_position_renders_roles_and_no_tactic() {
    let text = render_text(&quiet_view());
    assert!(text.contains("white (to move):"));
    assert!(text.contains("black (one-ply ahead):"));
    assert!(text.contains("(no high-confidence pattern detected)"));
    assert_eq!(
        text,
        "white (to move):\n  best tactic: (no high-confidence pattern detected)\n  overloaded: (none)\n\n\
         black (one-ply ahead):\n  best tactic: (no high-confidence pattern detected)\n  overloaded: (none)\n\n"
    );
}

#[test]
fn render_text_includes_pattern_and_targets_of_a_hit() {
    let mut view = quiet_view();
    view.black.best_tactic = Some(removing_defender_hit());
    let text = render_text(&view);
    assert!(text.contains("best tactic: RemovingDefender"), "{text}");
    assert!(text.contains("key sq:     e4"), "{text}");
    assert!(text.contains("    targets:    Nf5\n"), "{text}");
    assert!(text.contains("    gain:       320 engine-cp\n"), "{text}");
    assert!(text.contains("    confidence: High\n"), "{text}");
    assert!(!text.contains("[has escape"), "{text}");
    assert!(!text.contains("NOTE:       an escape exists"), "{text}");
}

#[test]
fn escapable_tactic_is_tagged_and_noted_in_text() {
    let mut hit = removing_defender_hit();
    hit.pattern = "Pin".to_string();
    hit.targets = vec!["be5".to_string()];
    hit.escape = Some(EscapeView {
        key_move_san: Some("Rxe5".to_string()),
        refutation_san: "Bxh2+".to_string(),
        refutation_uci: "e5h2".to_string(),
        kind: "forcing check".to_string(),
        expected_target: "be5".to_string(),
    });
    let mut view = quiet_view();
    view.white.best_tactic = Some(hit);
    let text = render_text(&view);
    assert!(text.contains("[has escape — likely not winnable]"), "{text}");
    assert!(text.contains("NOTE:       an escape exists"), "{text}");
    assert!(
        text.contains("    refuted by: after Rxe5, opponent replies Bxh2+ (forcing check be5)\n"),
        "{text}"
    );
    assert!(!text.contains("gain:"), "{text}");
}

#[test]
fn skipped_scan_and_overloaded_defenders_render() {
    let mut view = quiet_view();
    view.black.skipped = Some("side to move is in check".to_string());
    view.white.overloaded = vec![OverloadedView {
        piece: "Qe2".to_string(),
        square: "e2".to_string(),
        duties: vec!["Pf2".to_string(), "Re1".to_string()],
    }];
    let text = render_text(&view);
    assert!(text.contains("  best tactic: skipped (side to move is in check)\n"));
    assert!(text.contains("  overloaded (1):\n    Qe2 — sole defender of Pf2, Re1\n"));
}

#[test]
fn mate_and_sacrifice_suffixes_and_missing_gain() {
    let mut hit = removing_defender_hit();
    hit.pattern = "Mate".to_string();
    hit.mate_pattern = Some("BackRank".to_string());
    hit.sacrifice = true;
    hit.material_gain = None;
    hit.targets = vec![];
    let mut view = quiet_view();
    view.white.best_tactic = Some(hit);
    let text = render_text(&view);
    assert!(text.contains("  best tactic: Mate + BackRank mate (sacrifice)\n"), "{text}");
    assert!(text.contains("    targets:    (none)\n"), "{text}");
    assert!(text.contains("    gain:       n/a\n"), "{text}");
}

#[test]
fn latent_block_renders_vehicle_and_trigger() {
    let mut view = quiet_view();
    view.latent = Some(LatentView {
        against_white: LatentSide {
            defender_side: "white".to_string(),
            threats: vec![LatentThreatView {
                pattern: "DiscoveredAttack".to_string(),
                discoverer: "re8".to_string(),
                discoverer_square: "e8".to_string(),
                vehicle: Some("be5".to_string()),
                vehicle_square: Some("e5".to_string()),
                target: "Re1".to_string(),
                target_square: "e1".to_string(),
                min_gain: 5,
                confidence: "High".to_string(),
                trigger: "any move by the bishop on e5".to_string(),
            }],
        },
        against_black: LatentSide { defender_side: "black".to_string(), threats: vec![] },
    });
    let text = render_text(&view);
    assert!(text.contains(
        "standing (latent) threats:\n  against white (1):\n    DiscoveredAttack via e8/e5(be5) -> e1  (gain 5)\n      trigger:   any move by the bishop on e5\n  against black: (none detected)\n"
    ), "{text}");
}

fn defusal(san: &str, pawns: &str) -> DefusalMoveView {
    DefusalMoveView {
        san: san.to_string(),
        uci: "a1a2".to_string(),
        pawns_white_pov: pawns.to_string(),
        engine_cp_stm: "-50".to_string(),
        addresses: vec!["Pin on Re1".to_string(), "Fork".to_string()],
    }
}

#[test]
fn defusal_block_caps_non_holders_at_four() {
    let mut view = quiet_view();
    view.defusals = Some(DefusalsView {
        depth: 6,
        threat_count: 2,
        best_san: Some("Qd2".to_string()),
        best_pawns_white_pov: Some("+0.40".to_string()),
        common_thread: None,
        holders: vec![defusal("Qd2", "+0.40")],
        non_holders: (0..6).map(|_| defusal("Ra2", "-3.10")).collect(),
    });
    let text = render_text(&view);
    assert!(text.contains("defusing the danger (search-backed, depth 6):\n"), "{text}");
    assert!(text.contains("  you face 2 standing threat(s)"), "{text}");
    assert!(
        text.contains("    Qd2       +0.40 pawns (wp)  [engine-cp -50 stm]  — Pin on Re1; Fork\n"),
        "{text}"
    );
    assert_eq!(text.matches("    Ra2   ").count(), 4, "{text}");
    assert!(text.contains("    … and 2 more non-holding move(s)\n"), "{text}");
    assert!(text.contains("  best move overall: Qd2  (+0.40 pawns white-POV)\n"), "{text}");
}

#[test]
fn defusal_block_without_holders_warns() {
    let mut view = quiet_view();
    view.defusals = Some(DefusalsView {
        depth: 4,
        threat_count: 1,
        best_san: None,
        best_pawns_white_pov: None,
        common_thread: Some("all holders address the pin on e1".to_string()),
        holders: vec![],
        non_holders: vec![],
    });
    let text = render_text(&view);
    assert!(text.contains("  all holders address the pin on e1\n"), "{text}");
    assert!(text.contains("  !! NO move both defuses a threat and holds"), "{text}");
    assert!(!text.contains("best move overall"), "{text}");
}

#[test]
fn check_followups_list_each_reply() {
    let mut view = quiet_view();
    let mut hit = removing_defender_hit();
    hit.pattern = "Fork".to_string();
    hit.primary_square = "c7".to_string();
    view.check_followups = Some(CheckFollowupsView {
        for_white: CheckFollowupsSide {
            mover_side: "white".to_string(),
            sequences: vec![CheckFollowupView {
                check_san: "Nd5+".to_string(),
                check_uci: "c3d5".to_string(),
                replies: vec![
                    ReplyFollowupView {
                        reply_san: "Kd8".to_string(),
                        reply_uci: "e8d8".to_string(),
                        followup: Some(hit),
                    },
                    ReplyFollowupView {
                        reply_san: "Kf8".to_string(),
                        reply_uci: "e8f8".to_string(),
                        followup: None,
                    },
                ],
            }],
        },
        for_black: CheckFollowupsSide { mover_side: "black".to_string(), sequences: vec![] },
    });
    let text = render_text(&view);
    assert!(text.contains(
        "check-followups (one ply past the check):\n  for white (1):\n    Nd5+ (c3d5):\n      Kd8 (e8d8) -> Fork on c7 (High, gain 320 engine-cp)\n      Kf8 (e8f8) -> defuses (no followup tactic)\n  for black: (no two-step forcing sequences detected)\n"
    ), "{text}");
}
