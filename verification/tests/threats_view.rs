use chess_tutor::threats_view::{
    render_text, HangingView, OverloadedView, PinnedView, SideThreats, ThreatsView, TrappedView,
};

fn quiet(side: &str) -> SideThreats {
    SideThreats {
        side: side.to_string(),
        hanging: vec![],
        see_losing: vec![],
        pinned: vec![],
        overloaded: vec![],
        trapped: vec![],
    }
}

#[test]
fn quiet_sides_render_no_threats_found() {
    let view = ThreatsView { white: quiet("white"), black: quiet("black") };
    let text = render_text(&view);
    assert!(text.contains("white: (no threats found)"));
    assert!(text.contains("black: (no threats found)"));
    assert_eq!(text, "white: (no threats found)\n\nblack: (no threats found)\n\n");
}

#[test]
fn every_section_renders_with_its_count() {
    let mut black = quiet("black");
    black.hanging = vec![HangingView {
        piece: "rh8".to_string(),
        piece_kind: "rook".to_string(),
        square: "h8".to_string(),
        classical_points: 5,
        attackers: vec!["Qh1".to_string()],
    }];
    black.see_losing = vec![HangingView {
        piece: "nc6".to_string(),
        piece_kind: "knight".to_string(),
        square: "c6".to_string(),
        classical_points: 3,
        attackers: vec!["Pd5".to_string(), "Bb5".to_string()],
    }];
    black.pinned = vec![
        PinnedView {
            piece: "be5".to_string(),
            square: "e5".to_string(),
            kind: "relative".to_string(),
            pinner: "Re1".to_string(),
            pinned_to: "qe6".to_string(),
            escape_san: Some("Bxh2+".to_string()),
        },
        PinnedView {
            piece: "nd7".to_string(),
            square: "d7".to_string(),
            kind: "absolute".to_string(),
            pinner: "Bb5".to_string(),
            pinned_to: "ke8".to_string(),
            escape_san: None,
        },
    ];
    black.overloaded = vec![OverloadedView {
        piece: "qd8".to_string(),
        square: "d8".to_string(),
        duties: vec!["pf7".to_string(), "rh8".to_string()],
    }];
    black.trapped = vec![TrappedView {
        piece: "ba2".to_string(),
        square: "a2".to_string(),
        cage_squares: vec!["b1".to_string(), "b3".to_string()],
    }];
    let view = ThreatsView { white: quiet("white"), black };
    let text = render_text(&view);
    let expected_black = [
        "black:\n",
        "  hanging (1):\n",
        "    rh8 (5 pts) — attacked by Qh1\n",
        "  SEE-losing (1):\n",
        "    nc6 (3 pts) — losing trade vs Pd5, Bb5\n",
        "  pinned (2):\n",
        "    be5 — NOMINAL relative pin by Re1 (to qe6), but ESCAPABLE via Bxh2+ (a check): the pin does NOT restrain it\n",
        "    nd7 — absolute pin by Bb5 (pinned to ke8)\n",
        "  overloaded (1):\n",
        "    qd8 — sole defender of pf7, rh8\n",
        "  trapped (1):\n",
        "    ba2 — no safe square (cage: b1 b3)\n",
        "\n",
    ]
    .join("");
    assert!(text.ends_with(&expected_black), "{text}");
    assert!(text.starts_with("white: (no threats found)\n\n"), "{text}");
}
