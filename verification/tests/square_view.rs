use chess_tutor::square_view::{
    file_letter, ray_name, render_text, AttackerView, DiscoveredAttackView, OccupantView, PinView,
    SeeVerdictView, SquareView,
};

fn attacker(label: &str, color: &str, piece: &str, square: &str) -> AttackerView {
    AttackerView {
        label: label.to_string(),
        piece: piece.to_string(),
        color: color.to_string(),
        square: square.to_string(),
    }
}

fn sq(name: &str) -> u8 {
    let b = name.as_bytes();
    (b[1] - b'1') * 8 + (b[0] - b'a')
}

#[test]
fn empty_square_without_attackers() {
    let view = SquareView {
        square: "e4".to_string(),
        occupant: None,
        attackers: vec![],
        defenders: None,
        pin: None,
        discovered_attacks_when_moved: vec![],
        see_for_cheapest_capture: None,
    };
    let text = render_text(&view);
    assert!(text.contains("empty square"));
    assert!(text.contains("no attackers"));
    assert_eq!(text, "e4: (empty square)\n  attacked by:    (no attackers)\n");
}

#[test]
fn empty_square_lists_who_could_attack_it() {
    let view = SquareView {
        square: "f3".to_string(),
        occupant: None,
        attackers: vec![
            attacker("Pe2", "white", "pawn", "e2"),
            attacker("Pg2", "white", "pawn", "g2"),
            attacker("Ng1", "white", "knight", "g1"),
        ],
        defenders: None,
        pin: None,
        discovered_attacks_when_moved: vec![],
        see_for_cheapest_capture: None,
    };
    assert_eq!(
        render_text(&view),
        "f3: (empty square)\n  attackable by:  Pe2 (white pawn), Pg2 (white pawn), Ng1 (white knight)\n"
    );
}

#[test]
fn occupied_square_dossier_names_alignment() {
    let view = SquareView {
        square: "e5".to_string(),
        occupant: Some(OccupantView {
            label: "be5".to_string(),
            piece: "bishop".to_string(),
            color: "black".to_string(),
            classical_points: 3,
        }),
        attackers: vec![attacker("Qc4", "white", "queen", "c4")],
        defenders: Some(vec![
            attacker("qe6", "black", "queen", "e6"),
            attacker("pf6", "black", "pawn", "f6"),
        ]),
        pin: Some(PinView {
            kind: "relative".to_string(),
            pinner: attacker("Re1", "white", "rook", "e1"),
            pinned_to: "qe6".to_string(),
            ray: "e-file".to_string(),
        }),
        discovered_attacks_when_moved: vec![DiscoveredAttackView {
            discoverer: attacker("qe6", "black", "queen", "e6"),
            target: attacker("Re1", "white", "rook", "e1"),
            ray: "e-file".to_string(),
        }],
        see_for_cheapest_capture: Some(SeeVerdictView {
            cheapest_attacker: attacker("Qc4", "white", "queen", "c4"),
            verdict: "loses".to_string(),
        }),
    };
    let text = render_text(&view);
    let expected = [
        "e5: black bishop  (be5)\n",
        "  attacked by:    Qc4 (white queen)\n",
        "  defended by:    qe6 (black queen), pf6 (black pawn)\n",
        "  pin status:     relative pin by Re1 (pinned to qe6 along e-file)\n",
        "  is discovery vehicle for:\n",
        "    qe6 → Re1 along e-file  (moving the piece on e5 unblocks Re1)\n",
        "  SEE on capture: Qc4 captures here → loses  (cheapest attacker)\n",
    ]
    .join("");
    assert_eq!(text, expected);
}

#[test]
fn occupied_square_without_pin_or_defenders() {
    let view = SquareView {
        square: "d5".to_string(),
        occupant: Some(OccupantView {
            label: "Pd5".to_string(),
            piece: "pawn".to_string(),
            color: "white".to_string(),
            classical_points: 1,
        }),
        attackers: vec![attacker("pc6", "black", "pawn", "c6")],
        defenders: Some(vec![]),
        pin: None,
        discovered_attacks_when_moved: vec![],
        see_for_cheapest_capture: None,
    };
    let text = render_text(&view);
    assert!(text.contains("  defended by:    (no defenders)\n"));
    assert!(text.contains("  pin status:     not pinned\n"));
    assert!(!text.contains("discovery"));
}

#[test]
fn ray_names_for_files_ranks_and_diagonals() {
    assert_eq!(ray_name(sq("e1"), sq("e8")), "e-file");
    assert_eq!(ray_name(sq("a4"), sq("h4")), "4th rank");
    assert_eq!(ray_name(sq("a1"), sq("h8")), "a1-h8 diagonal");
    assert_eq!(ray_name(sq("c3"), sq("a5")), "a8-h1 diagonal");
    assert_eq!(ray_name(sq("b1"), sq("c3")), "ray b1-c3");
    assert_eq!(file_letter(0), 'a');
    assert_eq!(file_letter(7), 'h');
}
