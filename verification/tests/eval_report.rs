use chess_tutor::eval_report::{
    render, EvalTrace, KingBreakdown, MaterialBreakdown, MobilityBreakdown, PassedBreakdown,
    PawnsBreakdown, PiecesBreakdown, ThreatsBreakdown,
};
use chess_tutor::retrospective::Score;

fn z() -> Score {
    Score::zero()
}

fn pawns(total: Score, isolated: Score) -> PawnsBreakdown {
    PawnsBreakdown {
        connected: z(),
        isolated,
        backward: z(),
        doubled: z(),
        weak_unopposed: z(),
        weak_lever: z(),
        total,
    }
}

fn pieces() -> PiecesBreakdown {
    PiecesBreakdown {
        outposts: z(),
        reachable_outposts: z(),
        minor_behind_pawn: z(),
        king_protector: z(),
        bishop_pawns: z(),
        long_diagonal_bishop: z(),
        rook_on_queen_file: z(),
        rook_on_open_file: z(),
        rook_on_semiopen_file: z(),
        trapped_rook: z(),
        weak_queen: z(),
        total: z(),
    }
}

fn mobility() -> MobilityBreakdown {
    MobilityBreakdown { knight: z(), bishop: z(), rook: z(), queen: z(), total: z() }
}

fn threats() -> ThreatsBreakdown {
    ThreatsBreakdown {
        by_minor: z(),
        by_rook: z(),
        by_king: z(),
        hanging: z(),
        restricted: z(),
        by_safe_pawn: z(),
        by_pawn_push: z(),
        knight_on_queen: z(),
        slider_on_queen: z(),
        total: z(),
    }
}

fn king() -> KingBreakdown {
    KingBreakdown {
        pawn_shield: z(),
        pawn_storm: z(),
        king_pawn_distance: z(),
        danger: z(),
        pawnless_flank: z(),
        flank_attacks: z(),
        total: z(),
    }
}

fn passed() -> PassedBreakdown {
    PassedBreakdown { rank_bonus: z(), king_proximity: z(), free_advance: z(), stopper_penalty: z(), total: z() }
}

fn sample_trace() -> EvalTrace {
    EvalTrace {
        phase: 24,
        scale_factor: 64,
        tempo: 28,
        final_value: -15,
        pawns: [pawns(Score::new(10, 20), Score::new(-5, -12)), pawns(Score::new(4, 30), z())],
        pieces: [pieces(), pieces()],
        mobility: [mobility(), mobility()],
        threats: [threats(), threats()],
        king: [king(), king()],
        passed: [passed(), passed()],
        space: [Score::new(7, 0), Score::new(2, 0)],
        material: MaterialBreakdown {
            piece_value: Score::new(128, 213),
            psq_positional: Score::new(-3, 5),
            total: Score::new(125, 218),
        },
        imbalance: z(),
        initiative: Score::new(0, -9),
        total: Score::new(140, 190),
    }
}

#[test]
fn renders_startpos_trace_without_panic() {
    let out = render(&sample_trace());
    assert!(out.contains("material"));
    assert!(out.contains("mobility"));
    assert!(out.contains("TOTAL"));
    assert!(out.contains("final value:"));
}

#[test]
fn renders_pawns_and_pieces_sub_terms() {
    let out = render(&sample_trace());
    assert!(out.contains("isolated"));
    assert!(out.contains("connected"));
    assert!(out.contains("outposts"));
    assert!(out.contains("rook-on-open-file"));
    assert!(out.contains("weak-queen"));
}

#[test]
fn renders_mobility_sub_terms_by_piece_type() {
    let out = render(&sample_trace());
    assert!(out.contains("mobility"));
    assert!(out.contains("knight"));
    assert!(out.contains("bishop"));
    assert!(out.contains("rook"));
    assert!(out.contains("queen"));
}

#[test]
fn renders_passed_sub_terms() {
    let out = render(&sample_trace());
    assert!(out.contains("passed"));
    assert!(out.contains("rank-bonus"));
    assert!(out.contains("king-proximity"));
    assert!(out.contains("free-advance"));
    assert!(out.contains("stopper-penalty"));
}

#[test]
fn renders_king_sub_terms() {
    let out = render(&sample_trace());
    assert!(out.contains("king"));
    assert!(out.contains("pawn-shield"));
    assert!(out.contains("pawn-storm"));
    assert!(out.contains("pawn-distance"));
    assert!(out.contains("danger"));
    assert!(out.contains("pawnless-flank"));
    assert!(out.contains("flank-attacks"));
}

#[test]
fn renders_threats_sub_terms() {
    let out = render(&sample_trace());
    assert!(out.contains("threats"));
    assert!(out.contains("by-minor"));
    assert!(out.contains("hanging"));
    assert!(out.contains("restricted"));
    assert!(out.contains("by-safe-pawn"));
    assert!(out.contains("knight-on-queen"));
    assert!(out.contains("slider-on-queen"));
}

#[test]
fn eval_report_header_and_rows_are_exact() {
    let out = render(&sample_trace());
    assert!(out.starts_with(
        "phase:        24 / 128\nscale factor: 64 / 64\ntempo:        +28 cp  (engine-internal, PawnEG=213 scale)\nfinal value:  -15 cp  (engine-internal, side-to-move POV)\n\n"
    ));
    let lines: Vec<&str> = out.lines().collect();
    assert_eq!(
        lines[5],
        "term                       white mg   white eg   black mg   black eg     net mg     net eg"
    );
    assert_eq!(lines[6], "-".repeat(90));
    assert_eq!(
        lines[7],
        format!("{:<24}  {:>9}  {:>9}  {:>9}  {:>9}  {:>9}  {:>9}", "pawns", 10, 20, 4, 30, 6, -10)
    );
    assert_eq!(
        lines[9],
        format!(
            "{:<24}  {:>9}  {:>9}  {:>9}  {:>9}  {:>9}  {:>9}  // Penalty for OUR pawns with no friendly pawn on adjacent files. Positive = THEY have more isolated pawns than we do.",
            "  isolated", -5, -12, 0, 0, -5, -12
        )
    );
    let space = lines.iter().find(|l| l.starts_with("space")).unwrap();
    assert!(space.ends_with("          5          0  // Squares we control on our half of the board, weighted by how many minor pieces are still on. Positive = WE control more."));
    assert!(out.ends_with(&format!("{:<24}  {:>9}  {:>9}\n", "TOTAL", 140, 190)));
    let init = lines.iter().find(|l| l.starts_with("initiative")).unwrap();
    assert!(init.starts_with(&format!("{:<24}  {:>9}  {:>9}  // Late-game tempo bonus", "initiative", 0, -9)));
    let count_rows = lines.len();
    assert_eq!(count_rows, 5 + 2 + 7 + 12 + 5 + 10 + 7 + 5 + 1 + 1 + 2 + 6);
}
