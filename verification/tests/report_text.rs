use chess_tutor::analysis_report;
use chess_tutor::play_repl::help_text;
use chess_tutor::search_report;

#[test]
fn settled_suffix_marks_leaf_and_ply() {
    assert_eq!(search_report::format_settled_suffix(5, Some(4)), "[settles leaf]");
    assert_eq!(search_report::format_settled_suffix(5, Some(1)), "[settles ply 2]");
    assert_eq!(search_report::format_settled_suffix(5, None), "");
    assert_eq!(search_report::format_settled_suffix(0, Some(0)), "");
    assert_eq!(search_report::format_settled_suffix(12, Some(9)), "[settles ply 10]");
}

#[test]
fn analysis_settled_suffix_uses_parentheses() {
    assert_eq!(analysis_report::format_settled_suffix(3, Some(2)), "(settles leaf)");
    assert_eq!(analysis_report::format_settled_suffix(3, Some(0)), "(settles ply 1)");
    assert_eq!(analysis_report::format_settled_suffix(3, None), "");
}

#[test]
fn repl_help_lists_every_command() {
    let h = help_text();
    assert!(h.starts_with("move input: SAN (e4, Nf3, O-O, Qxf7#) or UCI (e2e4, g1f3).\ncommands:\n"));
    for cmd in ["moves", "eval", "search [N]", "analyze [N] [P]", "retrospect", "explain-best", "openings", "eval-mask", "noise", "undo", "fen", "flip", "resign", "help", "quit"] {
        assert!(h.contains(&format!("  {cmd}")), "missing {cmd}");
    }
    assert!(h.ends_with("  quit     exit\n"));
    assert_eq!(h.lines().count(), 21);
}

use chess_tutor::cli_args::{user_owns, EngineColor};
use chess_tutor::forcing_view::promoted_to_letter;
use chess_tutor::position::{Color, Role};
use chess_tutor::repl_parse::promo_from_char;
use chess_tutor::search_report::gave_away_advantage;
use chess_tutor::square_view::{color_from_label, lower_color};
use chess_tutor::tactic_names::{
    confidence_name, escape_kind_str, mate_pattern_name, mechanism_phrase, pattern_name, Confidence,
    DefusalMechanism, EscapeKind, MatePattern, TacticPattern,
};

#[test]
fn tactic_vocabulary_names() {
    assert_eq!(pattern_name(TacticPattern::AttackingF2F7), "AttackingF2F7");
    assert_eq!(pattern_name(TacticPattern::XRay), "XRay");
    assert_eq!(mate_pattern_name(MatePattern::DoubleBishop), "DoubleBishop");
    assert_eq!(confidence_name(Confidence::Medium), "Medium");
    assert_eq!(escape_kind_str(EscapeKind::AdequateRetreat), "the target simply steps to safety");
    assert_eq!(mechanism_phrase(DefusalMechanism::CaptureVehicle), "captures the blocker");
}

#[test]
fn promotion_letters_both_ways() {
    assert_eq!(promoted_to_letter(Role::Queen), "q");
    assert_eq!(promoted_to_letter(Role::Knight), "n");
    assert_eq!(promoted_to_letter(Role::King), "?");
    assert_eq!(promo_from_char('r'), Some(Role::Rook));
    assert_eq!(promo_from_char('b'), Some(Role::Bishop));
    assert_eq!(promo_from_char('Q'), None);
    assert_eq!(promo_from_char('k'), None);
}

#[test]
fn side_labels_round_trip() {
    assert_eq!(lower_color(Color::White), "white");
    assert_eq!(lower_color(Color::Black), "black");
    assert_eq!(color_from_label("white"), Color::White);
    assert_eq!(color_from_label("black"), Color::Black);
    assert_eq!(color_from_label("White"), Color::Black);
}

#[test]
fn engine_side_ownership() {
    assert!(user_owns(Color::White, EngineColor::Neither));
    assert!(!user_owns(Color::Black, EngineColor::Both));
    assert!(user_owns(Color::Black, EngineColor::White));
    assert!(!user_owns(Color::White, EngineColor::White));
}

#[test]
fn advantage_given_away_needs_a_pawn_both_ways() {
    assert!(gave_away_advantage(500, 100));
    assert!(!gave_away_advantage(500, 300));
    assert!(!gave_away_advantage(300, 100));
    assert!(gave_away_advantage(214, 0));
    assert!(!gave_away_advantage(213, 0));
}

#[test]
fn force_include_hint_names_the_flag() {
    let h = search_report::force_include_hint();
    assert!(h.starts_with("hint:     judging a move you already played?"));
    assert!(h.contains("`--force-include <your move>`"));
    assert_eq!(h.lines().count(), 5);
}

// One pawn is 213 engine centipawns; the values below read as pawns x 213.
const P: i32 = 213;

#[test]
fn fires_winning_to_losing_swing() {
    assert!(gave_away_advantage(2 * P, -13 * P / 10));
}

#[test]
fn fires_when_a_won_position_is_given_up_without_crossing_zero() {
    assert!(gave_away_advantage(2 * P, P / 5));
}

#[test]
fn fires_when_a_neutral_position_is_thrown_away() {
    assert!(gave_away_advantage(P / 5, -3 * P));
}

#[test]
fn silent_when_still_clearly_winning() {
    assert!(!gave_away_advantage(5 * P, 3 * P));
}

#[test]
fn silent_on_a_small_slip() {
    assert!(!gave_away_advantage(2 * P, 15 * P / 10));
}

#[test]
fn silent_inside_the_equality_dead_zone() {
    assert!(!gave_away_advantage(60, -60));
}

use chess_tutor::noise_bench::{gap_stats, same_move_range, sort_i32, top_two_gap};

#[test]
fn noise_per_position_statistics() {
    // Moves scored in only one run do not count; the widest spread wins.
    let lists = vec![vec![30, 18, 25], vec![500], vec![-10, 12], vec![7, 7, 7]];
    assert_eq!(same_move_range(&lists), 22);
    assert_eq!(same_move_range(&vec![vec![40]]), 0);
    assert_eq!(same_move_range(&vec![]), 0);
    // The gap between the two best lines is clamped at zero.
    assert_eq!(top_two_gap(35, 20), 15);
    assert_eq!(top_two_gap(20, 35), 0);
    // min / median (upper for even counts) / max.
    assert_eq!(gap_stats(&vec![9, 2, 40, 13]), (2, 13, 40));
    assert_eq!(gap_stats(&vec![5, 1, 3]), (1, 3, 5));
    assert_eq!(gap_stats(&vec![]), (0, 0, 0));
    assert_eq!(sort_i32(&vec![3, -1, 2, -1]), vec![-1, -1, 2, 3]);
}
