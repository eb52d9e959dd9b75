use chess_tutor::settled_audit::{prototype_first_resolution, MatClass, PlyFacts};

#[test]
fn quiet_gap_inside_a_tactic_does_not_settle_early() {
    let facts = vec![
        PlyFacts { forcing: true, event_cp: 100 },
        PlyFacts { forcing: false, event_cp: 0 },
        PlyFacts { forcing: false, event_cp: 0 },
        PlyFacts { forcing: true, event_cp: 300 },
        PlyFacts { forcing: false, event_cp: 0 },
    ];
    let (settled, net) = prototype_first_resolution(&facts);
    assert_eq!(settled, 3);
    assert_eq!(net, 400);
}

#[test]
fn three_quiet_plies_end_the_window() {
    let facts = vec![
        PlyFacts { forcing: true, event_cp: 100 },
        PlyFacts { forcing: false, event_cp: 0 },
        PlyFacts { forcing: false, event_cp: 0 },
        PlyFacts { forcing: false, event_cp: 0 },
        PlyFacts { forcing: true, event_cp: -900 },
    ];
    let (settled, net) = prototype_first_resolution(&facts);
    assert_eq!(settled, 0, "window closed at the first capture");
    assert_eq!(net, 100, "deep-tail queen trade excluded");
}

#[test]
fn checks_keep_the_window_open_without_material() {
    let facts = vec![
        PlyFacts { forcing: true, event_cp: 100 },
        PlyFacts { forcing: false, event_cp: 0 },
        PlyFacts { forcing: false, event_cp: 0 },
        PlyFacts { forcing: true, event_cp: 0 },
        PlyFacts { forcing: false, event_cp: 0 },
        PlyFacts { forcing: false, event_cp: 0 },
        PlyFacts { forcing: true, event_cp: 500 },
    ];
    let (settled, net) = prototype_first_resolution(&facts);
    assert_eq!(settled, 6, "the check bridged the gaps");
    assert_eq!(net, 600);
}

#[test]
fn quiet_opening_settles_at_zero() {
    let facts = vec![
        PlyFacts { forcing: false, event_cp: 0 },
        PlyFacts { forcing: false, event_cp: 0 },
        PlyFacts { forcing: false, event_cp: 0 },
        PlyFacts { forcing: true, event_cp: 300 },
    ];
    assert_eq!(prototype_first_resolution(&facts), (0, 0));
    assert_eq!(prototype_first_resolution(&[]), (0, 0));
}

#[test]
fn material_class_labels() {
    assert_eq!(MatClass::Win.label(), "win");
    assert_eq!(MatClass::Neutral.label(), "neutral");
    assert_eq!(MatClass::Loss.label(), "loss");
}

use chess_tutor::settled_audit::{
    aggregate, classify, percentiles, render_flips, sort_ascending, ClassCounts, FlipExample,
    FlipSide, LineStat, Percentiles, SettledDistribution,
};

fn line(
    pv_len: usize,
    settled: Option<usize>,
    deltas: (i32, i32, i32),
    proto_settled: usize,
    tactic_ply: Option<usize>,
    evals: (Option<i32>, Option<i32>),
    score: i32,
    has_events: bool,
) -> LineStat {
    LineStat {
        pv_len,
        settled,
        cur_delta: deltas.0,
        proto_settled,
        proto_delta: deltas.1,
        full_delta: deltas.2,
        tactic_ply,
        eval_cur: evals.0,
        eval_proto: evals.1,
        score,
        has_events,
    }
}

fn p(p50: usize, p90: usize, max: usize) -> Percentiles {
    Percentiles { p50, p90, max }
}

#[test]
fn percentiles_use_nearest_rank_with_halves_up() {
    assert_eq!(sort_ascending(&vec![5, 1, 4, 1, 9, 2]), vec![1, 1, 2, 4, 5, 9]);
    assert_eq!(percentiles(&vec![5, 1, 4, 1, 9, 2]), p(4, 9, 9));
    assert_eq!(percentiles(&vec![]), p(0, 0, 0));
    assert_eq!(percentiles(&vec![7]), p(7, 7, 7));
}

#[test]
fn material_classes_use_the_threshold_both_ways() {
    assert_eq!(classify(100, 100), MatClass::Win);
    assert_eq!(classify(99, 100), MatClass::Neutral);
    assert_eq!(classify(-100, 100), MatClass::Loss);
    assert_eq!(classify(-99, 100), MatClass::Neutral);
}

#[test]
fn aggregate_of_no_lines_is_none() {
    assert!(aggregate(&[], 100, 31_000).is_none());
}

#[test]
fn aggregate_counts_and_percentiles() {
    let stats = [
        line(5, Some(4), (300, 0, 300), 2, Some(1), (Some(250), Some(40)), 280, true),
        line(3, None, (0, 0, -100), 0, None, (None, None), 10, false),
        line(8, Some(0), (-150, -150, -150), 3, Some(2), (Some(-120), Some(-100)), 31_990, true),
    ];
    let a = aggregate(&stats, 100, 31_000).unwrap();
    assert_eq!(a.lines, 3);
    assert_eq!(a.pv_len, p(5, 8, 8));
    assert_eq!(
        a.settled,
        SettledDistribution { leaf: 1, one: 0, two: 0, three_to_five: 0, far: 1, none: 1, at_ply_zero: 1 }
    );
    assert_eq!(a.proto_settled, p(2, 3, 3));
    assert_eq!(a.proto_at_zero, 1);
    assert_eq!(a.class_current, ClassCounts { win: 1, neutral: 1, loss: 1 });
    assert_eq!(a.class_prototype, ClassCounts { win: 0, neutral: 2, loss: 1 });
    assert_eq!(a.class_full, ClassCounts { win: 1, neutral: 0, loss: 2 });
    assert_eq!(a.flipped, 1);
    assert_eq!(a.current_eq_full, 2);
    assert_eq!(a.eval_gap_all, p(210, 210, 210));
    assert_eq!(a.eval_gap_all_n, 2);
    assert_eq!(a.eval_gap_events, p(210, 210, 210));
    assert_eq!(a.eval_gap_events_n, 2);
    assert_eq!(a.score_gap_n, 1);
    assert_eq!(a.score_gap_current, p(30, 30, 30));
    assert_eq!(a.score_gap_prototype, p(240, 240, 240));
    let o = a.oracle.unwrap();
    assert_eq!(o.lines, 2);
    assert_eq!(o.current, p(3, 3, 3));
    assert_eq!(o.prototype, p(1, 1, 1));
}

#[test]
fn aggregate_without_tactics_has_no_oracle() {
    let stats = [line(4, Some(1), (0, 0, 0), 0, None, (Some(5), Some(5)), 0, false)];
    let a = aggregate(&stats, 100, 31_000).unwrap();
    assert!(a.oracle.is_none());
    assert_eq!(a.score_gap_n, 0);
    assert_eq!(a.settled.two, 1);
    assert_eq!(a.eval_gap_events_n, 0);
    assert_eq!(a.eval_gap_all, p(0, 0, 0));
}

fn flip(pos_idx: usize, slot: usize) -> FlipExample {
    FlipExample {
        pos_idx,
        fen: "8/8/8/8/8/8/8/K6k w - - 0 1".to_string(),
        slot,
        pv_san: "Qxf7+ Kxf7".to_string(),
        cur: FlipSide { class: MatClass::Win, delta_cp: 320, settled: 4 },
        proto: FlipSide { class: MatClass::Neutral, delta_cp: 0, settled: 2 },
    }
}

#[test]
fn flip_examples_block() {
    assert_eq!(
        render_flips(&[flip(3, 0)], 5),
        "\n  classification-flip examples (1 of 1):\n    pos  3 slot  0: current win(+320 cp @ply 4) -> prototype neutral(+0 cp @ply 2)\n      fen: 8/8/8/8/8/8/8/K6k w - - 0 1\n      pv:  Qxf7+ Kxf7\n"
    );
    assert_eq!(render_flips(&[flip(3, 0)], 0), "");
    assert_eq!(render_flips(&[], 4), "");
    let two = render_flips(&[flip(12, 1), flip(14, 2)], 1);
    assert!(two.starts_with("\n  classification-flip examples (1 of 2):\n    pos 12 slot  1:"));
    assert!(!two.contains("pos 14"));
}

use chess_tutor::position::Role;
use chess_tutor::settled_audit::{current_cap, standard_piece_value_cp};

#[test]
fn standard_values_of_the_pieces() {
    assert_eq!(standard_piece_value_cp(Role::Pawn), 100);
    assert_eq!(standard_piece_value_cp(Role::Knight), 300);
    assert_eq!(standard_piece_value_cp(Role::Bishop), 300);
    assert_eq!(standard_piece_value_cp(Role::Rook), 500);
    assert_eq!(standard_piece_value_cp(Role::Queen), 900);
    assert_eq!(standard_piece_value_cp(Role::King), 0);
}

#[test]
fn material_walk_cap_clamps_to_the_line() {
    assert_eq!(current_cap(6, Some(2)), 2);
    assert_eq!(current_cap(6, Some(6)), 5);
    assert_eq!(current_cap(6, None), 5);
    assert_eq!(current_cap(0, None), 0);
}

use chess_tutor::settled_audit::ply_facts;

#[test]
fn classify_uses_the_noise_threshold() {
    // The noise branches key on a ±1-pawn swing in material centipawns.
    let win = 100;
    assert_eq!(classify(win, win), MatClass::Win);
    assert_eq!(classify(win - 1, win), MatClass::Neutral);
    assert_eq!(classify(-win, win), MatClass::Loss);
    assert_eq!(classify(0, win), MatClass::Neutral);
}

#[test]
fn ply_facts_sign_captures_and_promotions() {
    // exd4 by the root side takes a pawn; Nxd4 by the opponent takes one back.
    assert_eq!(ply_facts(true, Some(Role::Pawn), None, false), PlyFacts { forcing: true, event_cp: 100 });
    assert_eq!(ply_facts(false, Some(Role::Pawn), None, false), PlyFacts { forcing: true, event_cp: -100 });
    // e8=Q: the queen minus the pawn it replaces.
    assert_eq!(ply_facts(true, None, Some(Role::Queen), false), PlyFacts { forcing: true, event_cp: 800 });
    // A capture that promotes counts both.
    assert_eq!(ply_facts(false, Some(Role::Rook), Some(Role::Knight), true), PlyFacts { forcing: true, event_cp: -700 });
    // A quiet check is forcing without material; a quiet move is neither.
    assert_eq!(ply_facts(true, None, None, true), PlyFacts { forcing: true, event_cp: 0 });
    assert_eq!(ply_facts(true, None, None, false), PlyFacts { forcing: false, event_cp: 0 });
}

#[test]
fn resolution_sums_forcing_events_before_the_first_quiet_run() {
    let facts = vec![
        PlyFacts { forcing: false, event_cp: 0 },
        PlyFacts { forcing: true, event_cp: 300 },
        PlyFacts { forcing: false, event_cp: 0 },
        PlyFacts { forcing: true, event_cp: -100 },
        PlyFacts { forcing: false, event_cp: 0 },
        PlyFacts { forcing: false, event_cp: 0 },
        PlyFacts { forcing: false, event_cp: 0 },
        PlyFacts { forcing: true, event_cp: 900 },
    ];
    assert_eq!(prototype_first_resolution(&facts), (3, 200));
}
