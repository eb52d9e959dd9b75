use chess_tutor::position::{Color, Position};
use chess_tutor::summary::{
    build_material_block, format_piece_summary, piece_counts, points_total, render_text,
    DangerLine, MaterialBlock, OpeningBlock, PositionSummary, ScoreBlock, ScoreSourceJson,
};

fn pos(fen: &str) -> Position {
    Position::from_fen(fen).unwrap()
}

#[test]
fn startpos_material_is_even() {
    let p = pos("rnbqkbnr/pppppppp/8/8/8/8/PPPPPPPP/RNBQKBNR w KQkq - 0 1");
    assert_eq!(piece_counts(&p, Color::White), [1, 2, 2, 2, 8]);
    let m = build_material_block(&p);
    assert_eq!(m.balance, "even");
    assert_eq!(m.white_summary, "Q+2R+2B+2N+8P");
    assert_eq!(m.black_summary, "Q+2R+2B+2N+8P");
    assert_eq!((m.white_points, m.black_points), (39, 39));
}

#[test]
fn material_imbalance_names_the_side_ahead() {
    // White is a rook up.
    let p = pos("4k3/pppp4/8/8/8/8/PPPP4/R3K3 w - - 0 1");
    let m = build_material_block(&p);
    assert_eq!(m.balance, "white +5");
    assert_eq!(m.white_summary, "R+4P");
    assert_eq!(m.black_summary, "4P");
    let p = pos("q3k3/8/8/8/8/8/8/4K3 w - - 0 1");
    let m = build_material_block(&p);
    assert_eq!(m.balance, "black +9");
    assert_eq!(m.white_summary, "K only");
}

#[test]
fn piece_summary_and_points() {
    assert_eq!(format_piece_summary(&[0, 0, 0, 0, 0]), "K only");
    assert_eq!(format_piece_summary(&[1, 2, 1, 0, 7]), "Q+2R+B+7P");
    assert_eq!(format_piece_summary(&[0, 0, 0, 3, 0]), "3N");
    assert_eq!(points_total(&[1, 2, 1, 0, 7]), 9 + 10 + 3 + 7);
}

fn summary() -> PositionSummary {
    PositionSummary {
        fen: "rnbqkbnr/pppppppp/8/8/8/8/PPPPPPPP/RNBQKBNR w KQkq - 0 1".to_string(),
        to_move: "White",
        in_check: false,
        material: MaterialBlock {
            balance: "even".to_string(),
            white_summary: "Q+2R+2B+2N+8P".to_string(),
            black_summary: "Q+2R+2B+2N+8P".to_string(),
            white_points: 39,
            black_points: 39,
        },
        score: ScoreBlock {
            pawns_white_pov: "+0.15".to_string(),
            conv_cp_white_pov: "+15".to_string(),
            win_pct_white: 51,
            source: ScoreSourceJson::Static,
            engine_cp_stm: 32,
            engine_cp_white_pov: 32,
        },
        opening: None,
        legal_move_count: 20,
        terminal: None,
        danger: vec![],
    }
}

#[test]
fn startpos_summary_text_has_every_line() {
    let text = render_text(&summary());
    let expected = [
        "position: rnbqkbnr/pppppppp/8/8/8/8/PPPPPPPP/RNBQKBNR w KQkq - 0 1\n",
        "to move:  White\n",
        "in check: no\n",
        "material: even   (W: Q+2R+2B+2N+8P = 39  vs  B: Q+2R+2B+2N+8P = 39)\n",
        "score:    +0.15 pawns white-POV  (engine-cp: +32 stm; ~51% win)  [static]\n",
        "opening:  (none matched)\n",
        "legal:    20 moves\n",
    ]
    .join("");
    assert_eq!(text, expected);
}

#[test]
fn search_source_danger_opening_and_terminal_render() {
    let mut s = summary();
    s.in_check = true;
    s.score.source = ScoreSourceJson::Search { depth: 12 };
    s.score.engine_cp_stm = -120;
    s.opening = Some(OpeningBlock { eco: "C20".to_string(), name: "King's Pawn Game".to_string() });
    s.terminal = Some("checkmate");
    s.danger = vec![DangerLine {
        pattern: "Pin".to_string(),
        target: "Re1".to_string(),
        min_gain: 5,
        trigger: "any move by the bishop on e5".to_string(),
    }];
    let text = render_text(&s);
    assert!(text.contains("in check: yes\n"), "{text}");
    assert!(text.contains("(engine-cp: -120 stm; ~51% win)  [search d=12]\n"), "{text}");
    assert!(text.contains(
        "danger:   !! 1 standing threat(s) against White (side to move) — a move that ignores these will likely swing the eval against you:\n            - opponent's Pin on your Re1 (~5 pts) — fires when any move by the bishop on e5\n          (static scan; confirm with `chess-tutor tactics --latent` or `chess-tutor explain`)\n"
    ), "{text}");
    assert!(text.contains("opening:  C20  King's Pawn Game\n"), "{text}");
    assert!(text.ends_with("legal:    20 moves\nterminal: checkmate\n"), "{text}");
}
