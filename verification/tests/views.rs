use chess_tutor::alignments_view::{
    self, AlignmentsView, RayAlignment, SideAlignments,
};
use chess_tutor::attacks_view::{self, AttackRecord, AttacksView, SideAttacks};
use chess_tutor::forcing_view::{
    self, capture_suffix, CaptureTarget, ForcingMoveView, ForcingView, SideForcing,
};

fn sq(name: &str) -> u8 {
    let b = name.as_bytes();
    (b[1] - b'1') * 8 + (b[0] - b'a')
}

fn quiet_forcing(side: &str, to_move: bool) -> SideForcing {
    SideForcing {
        side: side.to_string(),
        is_to_move: to_move,
        checks: vec![],
        captures: vec![],
        promotions: vec![],
    }
}

fn mv(san: &str, captures: Option<CaptureTarget>, promo: Option<&str>) -> ForcingMoveView {
    ForcingMoveView {
        san: san.to_string(),
        uci: "a1a2".to_string(),
        mover: "Qc4".to_string(),
        captures,
        gives_check: false,
        promotion_piece: promo.map(|p| p.to_string()),
    }
}

#[test]
fn startpos_forcing_report_is_empty() {
    let view = ForcingView { white: quiet_forcing("white", true), black: quiet_forcing("black", false) };
    assert_eq!(
        forcing_view::render_text(&view),
        "white (to move): (no forcing moves)\n\nblack (opponent, via null-move): (no forcing moves)\n\n"
    );
}

#[test]
fn forcing_lists_checks_captures_and_promotions() {
    let qe6 = CaptureTarget {
        piece: "qe6".to_string(),
        square: "e6".to_string(),
        piece_kind: "queen".to_string(),
        classical_points: 9,
        see_verdict: "wins material".to_string(),
    };
    let mut white = quiet_forcing("white", true);
    white.checks = vec![mv("Qxe6+", Some(qe6.clone()), None)];
    white.captures = vec![mv("Qxe6+", Some(qe6), None)];
    white.promotions = vec![mv("b8=Q", None, Some("q")), mv("b8=N", None, None)];
    let view = ForcingView { white, black: quiet_forcing("black", false) };
    let expected = [
        "white (to move):\n",
        "  checks (1):\n",
        "    Qxe6+  — captures qe6 (9 pts; SEE: wins material)\n",
        "  captures (1):\n",
        "    Qxe6+  — captures qe6 (9 pts; SEE: wins material)\n",
        "  promotions (2):\n",
        "    b8=Q (promotes to q)\n",
        "    b8=N (promotes to ?)\n",
        "\n",
        "black (opponent, via null-move): (no forcing moves)\n\n",
    ]
    .join("");
    assert_eq!(forcing_view::render_text(&view), expected);
    assert_eq!(capture_suffix(&mv("Ke2", None, None)), "");
}

#[test]
fn attacks_table_aligns_its_columns() {
    let view = AttacksView {
        white: SideAttacks {
            side: "white".to_string(),
            attacks: vec![AttackRecord {
                attacker: "Qc4".to_string(),
                attacker_square: "c4".to_string(),
                attacker_kind: "queen".to_string(),
                target: "qe6".to_string(),
                target_square: "e6".to_string(),
                target_kind: "queen".to_string(),
                target_points: 9,
                defender_count: 1,
                attacker_count: 12,
                see_verdict: "even trade".to_string(),
            }],
        },
        black: SideAttacks { side: "black".to_string(), attacks: vec![] },
    };
    let expected = [
        "white attacks on enemy pieces:\n",
        "  from    → to    att/def  SEE             \n",
        "  Qc4     → qe6    12/1    even trade       (target: 9 pts)\n",
        "\n",
        "black attacks: (none)\n\n",
    ]
    .join("");
    assert_eq!(attacks_view::render_text(&view), expected);
}

fn alignment(slider: &str, blocker: &str, target: &str, ray: &str) -> RayAlignment {
    RayAlignment {
        slider: slider.to_string(),
        slider_square: slider[1..].to_string(),
        slider_kind: "rook".to_string(),
        blocker: blocker.to_string(),
        blocker_square: blocker[1..].to_string(),
        blocker_kind: "bishop".to_string(),
        blocker_color: "black".to_string(),
        target: target.to_string(),
        target_square: target[1..].to_string(),
        target_kind: "queen".to_string(),
        target_color: "black".to_string(),
        ray: ray.to_string(),
        target_more_valuable: true,
    }
}

#[test]
fn alignments_render_both_candidate_lists() {
    let view = AlignmentsView {
        white: SideAlignments {
            side: "white".to_string(),
            discovered_attack_candidates: vec![],
            pin_skewer_candidates: vec![alignment("Re1", "be5", "qe6", "e-file")],
        },
        black: SideAlignments {
            side: "black".to_string(),
            discovered_attack_candidates: vec![alignment("qe6", "be5", "Re1", "e-file")],
            pin_skewer_candidates: vec![],
        },
    };
    let expected = [
        "white alignments:\n",
        "  pin / skewer candidates (1):\n",
        "    Re1 → (enemy blocker be5) → qe6 along e-file\n",
        "\n",
        "black alignments:\n",
        "  discovered-attack candidates (1):\n",
        "    qe6 → (vehicle be5) → Re1 along e-file\n",
        "\n",
    ]
    .join("");
    assert_eq!(alignments_view::render_text(&view), expected);
}

#[test]
fn alignments_quiet_side_and_ray_names() {
    let view = AlignmentsView {
        white: SideAlignments {
            side: "white".to_string(),
            discovered_attack_candidates: vec![],
            pin_skewer_candidates: vec![],
        },
        black: SideAlignments {
            side: "black".to_string(),
            discovered_attack_candidates: vec![],
            pin_skewer_candidates: vec![],
        },
    };
    assert_eq!(
        alignments_view::render_text(&view),
        "white alignments: (none)\n\nblack alignments: (none)\n\n"
    );
    assert_eq!(alignments_view::ray_name(sq("e1"), sq("e6")), "e-file");
    assert_eq!(alignments_view::ray_name(sq("a8"), sq("d8")), "8th rank");
    assert_eq!(alignments_view::ray_name(sq("b2"), sq("g7")), "a1-h8 diagonal");
    assert_eq!(alignments_view::ray_name(sq("h1"), sq("a8")), "a8-h1 diagonal");
    assert_eq!(alignments_view::file_letter(4), 'e');
}
