use chess_tutor::retrospective::castling_narration::{ours_line, theirs_line, CastlingOutcome};
use chess_tutor::retrospective::king_safety_narration::{
    flank_side_label, our_king_exposure_line, our_king_safer_line, their_king_exposure_line,
    their_king_safer_line, KingSafetyOutcome, KingSafetySnapshot,
};
use chess_tutor::retrospective::mobility_narration::{
    our_mobility_line, their_mobility_line, MobilityBreakdown, MobilityOutcome,
};
use chess_tutor::retrospective::pawn_structure_narration::{
    our_pawns_improved_line, our_pawns_worsened_line, their_pawns_improved_line,
    their_pawns_worsened_line, PawnStructureOutcome, PawnsBreakdown,
};
use chess_tutor::retrospective::pieces_positional_narration::{
    our_pieces_improved_line, our_pieces_worsened_line, their_pieces_worsened_line,
    PiecesBreakdown, PiecesPositionalOutcome,
};
use chess_tutor::retrospective::{format_shelter_pawns, Score};

fn sq(name: &str) -> u8 {
    let b = name.as_bytes();
    (b[1] - b'1') * 8 + (b[0] - b'a')
}

// ---- castling ----------------------------------------------------------

fn outcome(
    ours_pre: bool,
    ours_post: bool,
    theirs_pre: bool,
    theirs_post: bool,
    ours_trapped_mg: i32,
    theirs_trapped_mg: i32,
) -> CastlingOutcome {
    CastlingOutcome {
        ours_could_castle_pre: ours_pre,
        ours_could_castle_post: ours_post,
        theirs_could_castle_pre: theirs_pre,
        theirs_could_castle_post: theirs_post,
        ours_trapped_rook_post_mg: ours_trapped_mg,
        theirs_trapped_rook_post_mg: theirs_trapped_mg,
    }
}

#[test]
fn ours_line_fires_when_castling_lost_and_rook_trapped() {
    let o = outcome(true, false, true, true, -90, 0);
    let line = ours_line(&o).expect("should fire");
    assert!(line.starts_with("You forfeited castling"));
}

#[test]
fn ours_line_silent_when_castling_kept() {
    let o = outcome(true, true, true, true, -90, 0);
    assert_eq!(ours_line(&o), None);
}

#[test]
fn ours_line_silent_when_no_trapped_rook() {
    let o = outcome(true, false, true, true, 0, 0);
    assert_eq!(ours_line(&o), None);
}

#[test]
fn theirs_line_fires_when_we_strip_opponents_castling_and_their_rook_trapped() {
    let o = outcome(true, true, true, false, 0, -90);
    let line = theirs_line(&o).expect("should fire");
    assert!(line.starts_with("You stripped the opponent of castling"));
}

#[test]
fn threshold_suppresses_tiny_trapped_rook_penalty() {
    let o = outcome(true, false, true, true, -10, 0);
    assert_eq!(ours_line(&o), None);
}

// ---- king safety -------------------------------------------------------

fn ks_outcome(
    ours_pre: (i32, i32, i32, i32),
    ours_post: (i32, i32, i32, i32),
    theirs_pre: (i32, i32, i32, i32),
    theirs_post: (i32, i32, i32, i32),
) -> KingSafetyOutcome {
    ks_outcome_with_kings(
        (sq("e1"), sq("e1")),
        (sq("e8"), sq("e8")),
        ours_pre,
        ours_post,
        theirs_pre,
        theirs_post,
    )
}

fn ks_outcome_with_kings(
    ours_kings: (u8, u8),
    theirs_kings: (u8, u8),
    ours_pre: (i32, i32, i32, i32),
    ours_post: (i32, i32, i32, i32),
    theirs_pre: (i32, i32, i32, i32),
    theirs_post: (i32, i32, i32, i32),
) -> KingSafetyOutcome {
    let snap = |king_sq: u8, t: (i32, i32, i32, i32)| KingSafetySnapshot {
        king_sq,
        attackers_count: t.0,
        attacks_count: t.1,
        shelter_mg: t.2,
        shelter_eg: t.3,
    };
    KingSafetyOutcome {
        ours_pre: snap(ours_kings.0, ours_pre),
        ours_post: snap(ours_kings.1, ours_post),
        theirs_pre: snap(theirs_kings.0, theirs_pre),
        theirs_post: snap(theirs_kings.1, theirs_post),
        phase: 128,
    }
}

#[test]
fn our_king_exposure_line_none_when_no_change() {
    let out = ks_outcome((1, 2, 80, 4), (1, 2, 80, 4), (0, 0, 80, 4), (0, 0, 80, 4));
    assert_eq!(our_king_exposure_line(&out), None);
    assert_eq!(their_king_exposure_line(&out), None);
}

#[test]
fn our_king_exposure_line_attackers_only() {
    let out = ks_outcome((1, 2, 80, 4), (3, 4, 80, 4), (0, 0, 80, 4), (0, 0, 80, 4));
    let line = our_king_exposure_line(&out).expect("attackers up should fire");
    assert_eq!(line, "Your king is more exposed: 3 attackers on the king ring (up from 1).");
}

#[test]
fn our_king_exposure_line_shelter_only() {
    let out = ks_outcome((1, 2, 80, 4), (1, 2, 30, 4), (0, 0, 80, 4), (0, 0, 80, 4));
    let line = our_king_exposure_line(&out).expect("shelter drop should fire");
    assert_eq!(line, "Your king is more exposed: shelter weakened (+0.80 → +0.30).");
}

#[test]
fn our_king_exposure_line_shelter_below_threshold_does_not_fire() {
    let out = ks_outcome((1, 2, 80, 4), (1, 2, 60, 4), (0, 0, 80, 4), (0, 0, 80, 4));
    assert_eq!(our_king_exposure_line(&out), None);
}

#[test]
fn our_king_exposure_line_combines_attackers_and_shelter() {
    let out = ks_outcome((1, 2, 80, 4), (3, 5, 30, 0), (0, 0, 80, 4), (0, 0, 80, 4));
    let line = our_king_exposure_line(&out).expect("both should fire");
    assert!(line.contains("3 attackers on the king ring (up from 1)"));
    assert!(line.contains("shelter weakened (+0.80 → +0.30)"));
}

#[test]
fn their_king_exposure_line_uses_active_voice() {
    let out = ks_outcome((0, 0, 80, 4), (0, 0, 80, 4), (0, 0, 90, 4), (2, 3, 90, 4));
    let line = their_king_exposure_line(&out).expect("their exposure should fire");
    assert!(line.starts_with("You expose the opponent's king:"));
    assert!(line.contains("2 attackers on the king ring (up from 0)"));
}

#[test]
fn their_king_exposure_line_shelter_uses_cracked_verb() {
    let out = ks_outcome((0, 0, 80, 4), (0, 0, 80, 4), (0, 0, 90, 4), (0, 0, 50, 4));
    let line = their_king_exposure_line(&out).expect("their shelter drop should fire");
    assert!(line.contains("shelter cracked (+0.90 → +0.50)"));
}

#[test]
fn our_king_safer_line_attackers_down() {
    let out = ks_outcome((3, 4, 80, 4), (1, 2, 80, 4), (0, 0, 80, 4), (0, 0, 80, 4));
    let line = our_king_safer_line(&out).expect("attackers down should fire");
    assert_eq!(line, "Your king is safer: attackers down to 1 (from 3).");
}

#[test]
fn our_king_safer_line_shelter_up_from_castling() {
    let out = ks_outcome((0, 0, 30, 4), (0, 0, 80, 4), (0, 0, 80, 4), (0, 0, 80, 4));
    let line = our_king_safer_line(&out).expect("shelter up should fire");
    assert_eq!(line, "Your king is safer: shelter strengthened (+0.30 → +0.80).");
}

#[test]
fn our_king_safer_line_none_when_nothing_changed() {
    let out = ks_outcome((1, 2, 80, 4), (1, 2, 80, 4), (0, 0, 80, 4), (0, 0, 80, 4));
    assert_eq!(our_king_safer_line(&out), None);
}

#[test]
fn their_king_safer_line_uses_third_person() {
    let out = ks_outcome((0, 0, 80, 4), (0, 0, 80, 4), (3, 4, 80, 4), (1, 2, 80, 4));
    let line = their_king_safer_line(&out).expect("their attackers down should fire");
    assert!(line.starts_with("The opponent's king is safer:"));
    assert!(line.contains("attackers down to 1 (from 3)"));
}

#[test]
fn render_precedence_exposure_wins_over_safer_on_same_side() {
    let out = ks_outcome((1, 2, 30, 4), (3, 4, 80, 4), (0, 0, 80, 4), (0, 0, 80, 4));
    assert!(our_king_exposure_line(&out).is_some());
    assert!(our_king_safer_line(&out).is_some());
    let picked = our_king_exposure_line(&out).or_else(|| our_king_safer_line(&out));
    assert!(picked.as_deref().unwrap().starts_with("Your king is more exposed:"));
}

#[test]
fn flank_side_label_covers_all_file_zones() {
    assert_eq!(flank_side_label(sq("a1")), Some("queenside"));
    assert_eq!(flank_side_label(sq("b1")), Some("queenside"));
    assert_eq!(flank_side_label(sq("c1")), Some("queenside"));
    assert_eq!(flank_side_label(sq("d1")), None);
    assert_eq!(flank_side_label(sq("e1")), None);
    assert_eq!(flank_side_label(sq("f1")), Some("kingside"));
    assert_eq!(flank_side_label(sq("g1")), Some("kingside"));
    assert_eq!(flank_side_label(sq("h1")), Some("kingside"));
}

#[test]
fn our_king_exposure_line_names_kingside_after_castling() {
    let out = ks_outcome_with_kings(
        (sq("e1"), sq("g1")),
        (sq("e8"), sq("e8")),
        (0, 0, 80, 4),
        (2, 3, 80, 4),
        (0, 0, 80, 4),
        (0, 0, 80, 4),
    );
    let line = our_king_exposure_line(&out).expect("attackers up should fire");
    assert!(line.contains("2 attackers on the kingside (up from 0)"));
}

#[test]
fn their_king_exposure_line_names_queenside() {
    let out = ks_outcome_with_kings(
        (sq("e1"), sq("e1")),
        (sq("e8"), sq("c8")),
        (0, 0, 80, 4),
        (0, 0, 80, 4),
        (0, 0, 80, 4),
        (2, 3, 80, 4),
    );
    let line = their_king_exposure_line(&out).expect("their attackers up should fire");
    assert!(line.contains("2 attackers on the queenside (up from 0)"));
}

#[test]
fn our_king_safer_line_uses_flank_prefix_when_attackers_drop() {
    let out = ks_outcome_with_kings(
        (sq("e1"), sq("g1")),
        (sq("e8"), sq("e8")),
        (3, 4, 80, 4),
        (1, 2, 80, 4),
        (0, 0, 80, 4),
        (0, 0, 80, 4),
    );
    let line = our_king_safer_line(&out).expect("attackers down should fire");
    assert!(line.contains("kingside attackers down to 1 (from 3)"));
}

#[test]
fn central_king_falls_back_to_king_ring_wording() {
    let out = ks_outcome((1, 2, 80, 4), (3, 4, 80, 4), (0, 0, 80, 4), (0, 0, 80, 4));
    let line = our_king_exposure_line(&out).expect("attackers up should fire");
    assert!(line.contains("3 attackers on the king ring (up from 1)"));
}

#[test]
fn shelter_clause_suppressed_in_endgame_phase() {
    let mut out = ks_outcome((1, 2, 80, 4), (1, 2, 20, 4), (0, 0, 80, 4), (0, 0, 80, 4));
    out.phase = 16;
    assert_eq!(our_king_exposure_line(&out), None);
}

#[test]
fn attackers_clause_still_fires_in_endgame() {
    let mut out = ks_outcome((1, 2, 80, 4), (3, 4, 20, 4), (0, 0, 80, 4), (0, 0, 80, 4));
    out.phase = 16;
    let line = our_king_exposure_line(&out).expect("attackers up should still fire");
    assert!(line.contains("3 attackers on the king ring (up from 1)"));
    assert!(!line.contains("shelter"));
}

#[test]
fn shelter_clause_fires_in_midgame() {
    let mut out = ks_outcome((1, 2, 80, 4), (1, 2, 20, 4), (0, 0, 80, 4), (0, 0, 80, 4));
    out.phase = 64;
    let line = our_king_exposure_line(&out).expect("shelter drop should fire in mg");
    assert!(line.contains("shelter weakened"));
}

#[test]
fn safer_shelter_clause_also_suppressed_in_endgame() {
    let mut out = ks_outcome((1, 2, 20, 4), (1, 2, 80, 4), (0, 0, 80, 4), (0, 0, 80, 4));
    out.phase = 16;
    assert_eq!(our_king_safer_line(&out), None);
}

// ---- mobility ----------------------------------------------------------

fn mb(knight: i32, bishop: i32, rook: i32, queen: i32) -> MobilityBreakdown {
    MobilityBreakdown {
        knight: Score::new(knight, 0),
        bishop: Score::new(bishop, 0),
        rook: Score::new(rook, 0),
        queen: Score::new(queen, 0),
    }
}

fn mob_outcome(
    ours_pre: MobilityBreakdown,
    ours_post: MobilityBreakdown,
    theirs_pre: MobilityBreakdown,
    theirs_post: MobilityBreakdown,
) -> MobilityOutcome {
    MobilityOutcome { ours_pre, ours_post, theirs_pre, theirs_post }
}

#[test]
fn our_mobility_line_picks_biggest_piece_type_drop() {
    let out = mob_outcome(mb(80, 40, 80, 90), mb(20, 50, 75, 105), mb(0, 0, 0, 0), mb(0, 0, 0, 0));
    assert_eq!(
        our_mobility_line(&out),
        Some("Your knight activity dropped (+0.80 → +0.20).".to_string()),
    );
}

#[test]
fn our_mobility_line_uses_improved_verb_on_gain() {
    let out = mob_outcome(mb(0, 20, 0, 0), mb(0, 80, 0, 0), mb(0, 0, 0, 0), mb(0, 0, 0, 0));
    assert_eq!(
        our_mobility_line(&out),
        Some("Your bishop activity improved (+0.20 → +0.80).".to_string()),
    );
}

#[test]
fn mobility_below_threshold_does_not_fire() {
    let out = mob_outcome(mb(0, 0, 0, 0), mb(40, 0, 0, 0), mb(0, 0, 0, 0), mb(0, 0, 0, 0));
    assert_eq!(our_mobility_line(&out), None);
}

#[test]
fn their_mobility_line_uses_restricted_phrasing_on_decrease() {
    let out = mob_outcome(mb(0, 0, 0, 0), mb(0, 0, 0, 0), mb(0, 0, 80, 0), mb(0, 0, 20, 0));
    let line = their_mobility_line(&out).expect("should fire");
    assert!(line.starts_with("You restricted the opponent's rook activity"));
}

#[test]
fn their_mobility_line_uses_neutral_phrasing_on_improvement() {
    let out = mob_outcome(mb(0, 0, 0, 0), mb(0, 0, 0, 0), mb(0, 0, 0, 30), mb(0, 0, 0, 90));
    let line = their_mobility_line(&out).expect("should fire");
    assert!(line.starts_with("The opponent's queen activity improved"));
}

#[test]
fn mobility_tie_goes_to_the_later_piece_type() {
    let out = mob_outcome(mb(0, 0, 0, 0), mb(60, 0, -60, 0), mb(0, 0, 0, 0), mb(0, 0, 0, 0));
    assert_eq!(
        our_mobility_line(&out),
        Some("Your rook activity dropped (+0.00 → -0.60).".to_string()),
    );
}

#[test]
fn shelter_pawns_are_signed_with_two_decimals() {
    assert_eq!(format_shelter_pawns(80), "+0.80");
    assert_eq!(format_shelter_pawns(0), "+0.00");
    assert_eq!(format_shelter_pawns(-125), "-1.25");
    assert_eq!(format_shelter_pawns(7), "+0.07");
    assert_eq!(format_shelter_pawns(i32::MIN), "-21474836.48");
}

// ---- pawn structure ----------------------------------------------------

fn pb(
    connected: i32,
    isolated: i32,
    backward: i32,
    doubled: i32,
    weak_unopposed: i32,
    weak_lever: i32,
) -> PawnsBreakdown {
    PawnsBreakdown {
        connected: Score::new(connected, 0),
        isolated: Score::new(isolated, 0),
        backward: Score::new(backward, 0),
        doubled: Score::new(doubled, 0),
        weak_unopposed: Score::new(weak_unopposed, 0),
        weak_lever: Score::new(weak_lever, 0),
    }
}

fn ps_outcome(
    ours_pre: PawnsBreakdown,
    ours_post: PawnsBreakdown,
    theirs_pre: PawnsBreakdown,
    theirs_post: PawnsBreakdown,
) -> PawnStructureOutcome {
    PawnStructureOutcome { ours_pre, ours_post, theirs_pre, theirs_post }
}

#[test]
fn our_pawns_worsened_line_fires_on_new_doubled() {
    let out = ps_outcome(
        pb(0, 0, 0, 0, 0, 0),
        pb(0, 0, 0, -20, 0, 0),
        pb(0, 0, 0, 0, 0, 0),
        pb(0, 0, 0, 0, 0, 0),
    );
    assert_eq!(
        our_pawns_worsened_line(&out),
        Some("Your pawn structure weakened: doubled a pawn.".to_string()),
    );
}

#[test]
fn our_pawns_worsened_line_combines_multiple_categories() {
    let out = ps_outcome(
        pb(0, 0, 0, 0, 0, 0),
        pb(0, 0, 0, -20, -25, 0),
        pb(0, 0, 0, 0, 0, 0),
        pb(0, 0, 0, 0, 0, 0),
    );
    let line = our_pawns_worsened_line(&out).expect("should fire");
    assert!(line.contains("doubled a pawn"));
    assert!(line.contains("exposed a weak pawn"));
}

#[test]
fn our_pawns_improved_line_fires_when_doubled_resolved() {
    let out = ps_outcome(
        pb(0, 0, 0, -20, 0, 0),
        pb(0, 0, 0, 0, 0, 0),
        pb(0, 0, 0, 0, 0, 0),
        pb(0, 0, 0, 0, 0, 0),
    );
    assert_eq!(
        our_pawns_improved_line(&out),
        Some("Your pawn structure improved: resolved a doubled pawn.".to_string()),
    );
}

#[test]
fn pawn_delta_below_threshold_does_not_fire() {
    let out = ps_outcome(
        pb(0, 0, 0, 0, 0, 0),
        pb(0, 0, 0, -10, 0, 0),
        pb(0, 0, 0, 0, 0, 0),
        pb(0, 0, 0, 0, 0, 0),
    );
    assert_eq!(our_pawns_worsened_line(&out), None);
    assert_eq!(our_pawns_improved_line(&out), None);
}

#[test]
fn their_pawns_worsened_line_uses_active_voice() {
    let out = ps_outcome(
        pb(0, 0, 0, 0, 0, 0),
        pb(0, 0, 0, 0, 0, 0),
        pb(0, 0, 0, 0, 0, 0),
        pb(0, 0, 0, -20, 0, 0),
    );
    let line = their_pawns_worsened_line(&out).expect("should fire");
    assert!(line.starts_with("You weakened the opponent's pawn structure:"));
    assert!(line.contains("doubled a pawn"));
}

#[test]
fn their_pawns_improved_line_uses_third_person() {
    let out = ps_outcome(
        pb(0, 0, 0, 0, 0, 0),
        pb(0, 0, 0, 0, 0, 0),
        pb(0, 0, 0, -20, 0, 0),
        pb(0, 0, 0, 0, 0, 0),
    );
    let line = their_pawns_improved_line(&out).expect("should fire");
    assert!(line.starts_with("The opponent's pawn structure improved:"));
}

// ---- piece placement ---------------------------------------------------

fn pib_zero() -> PiecesBreakdown {
    PiecesBreakdown {
        outposts: Score::zero(),
        reachable_outposts: Score::zero(),
        minor_behind_pawn: Score::zero(),
        king_protector: Score::zero(),
        bishop_pawns: Score::zero(),
        long_diagonal_bishop: Score::zero(),
        rook_on_queen_file: Score::zero(),
        rook_on_open_file: Score::zero(),
        rook_on_semiopen_file: Score::zero(),
        trapped_rook: Score::zero(),
        weak_queen: Score::zero(),
    }
}

fn pieces_outcome(
    ours_pre: PiecesBreakdown,
    ours_post: PiecesBreakdown,
    theirs_pre: PiecesBreakdown,
    theirs_post: PiecesBreakdown,
) -> PiecesPositionalOutcome {
    pieces_outcome_with_geometry(ours_pre, ours_post, theirs_pre, theirs_post, true, true)
}

fn pieces_outcome_with_geometry(
    ours_pre: PiecesBreakdown,
    ours_post: PiecesBreakdown,
    theirs_pre: PiecesBreakdown,
    theirs_post: PiecesBreakdown,
    ours_geometry_changed: bool,
    theirs_geometry_changed: bool,
) -> PiecesPositionalOutcome {
    PiecesPositionalOutcome {
        ours_pre,
        ours_post,
        theirs_pre,
        theirs_post,
        ours_bishop_pawn_count_pre: 0,
        ours_bishop_pawn_count_post: u32::from(ours_geometry_changed),
        theirs_bishop_pawn_count_pre: 0,
        theirs_bishop_pawn_count_post: u32::from(theirs_geometry_changed),
    }
}

#[test]
fn our_pieces_improved_line_fires_when_outpost_claimed() {
    let mut post = pib_zero();
    post.outposts = Score::new(30, 0);
    let out = pieces_outcome(pib_zero(), post, pib_zero(), pib_zero());
    assert_eq!(
        our_pieces_improved_line(&out),
        Some("Your piece placement improved: a minor claimed an outpost.".to_string())
    );
}

#[test]
fn our_pieces_worsened_line_fires_when_rook_leaves_open_file() {
    let mut pre = pib_zero();
    pre.rook_on_open_file = Score::new(45, 0);
    let out = pieces_outcome(pre, pib_zero(), pib_zero(), pib_zero());
    let line = our_pieces_worsened_line(&out).expect("should fire");
    assert!(line.contains("a rook left the open file"));
}

#[test]
fn pieces_delta_below_threshold_does_not_fire() {
    let mut post = pib_zero();
    post.outposts = Score::new(10, 0);
    let out = pieces_outcome(pib_zero(), post, pib_zero(), pib_zero());
    assert_eq!(our_pieces_improved_line(&out), None);
    assert_eq!(our_pieces_worsened_line(&out), None);
}

#[test]
fn their_pieces_worsened_line_uses_active_voice() {
    let mut their_pre = pib_zero();
    their_pre.rook_on_open_file = Score::new(45, 0);
    let out = pieces_outcome(pib_zero(), pib_zero(), their_pre, pib_zero());
    let line = their_pieces_worsened_line(&out).expect("should fire");
    assert!(line.starts_with("You weakened the opponent's piece placement:"));
}

#[test]
fn pieces_worsened_line_combines_multiple_clauses() {
    let mut pre = pib_zero();
    pre.outposts = Score::new(30, 0);
    pre.bishop_pawns = Score::new(0, 0);
    let mut post = pib_zero();
    post.outposts = Score::new(0, 0);
    post.bishop_pawns = Score::new(-20, 0);
    let out = pieces_outcome(pre, post, pib_zero(), pib_zero());
    let line = our_pieces_worsened_line(&out).expect("should fire");
    assert!(line.contains("a minor lost its outpost"));
    assert!(line.contains("a bishop got stuck behind its pawn chain"));
}

#[test]
fn bishop_pawns_suppressed_when_geometry_unchanged() {
    let mut pre = pib_zero();
    pre.bishop_pawns = Score::new(-24, -64);
    let mut post = pib_zero();
    post.bishop_pawns = Score::new(-48, -128);
    let out = pieces_outcome_with_geometry(pre, post, pib_zero(), pib_zero(), false, false);
    assert_eq!(our_pieces_worsened_line(&out), None);
    assert_eq!(their_pieces_worsened_line(&out), None);
}

#[test]
fn bishop_pawns_still_fires_when_geometry_changes() {
    let mut pre = pib_zero();
    pre.bishop_pawns = Score::new(-24, -64);
    let mut post = pib_zero();
    post.bishop_pawns = Score::new(-48, -128);
    let out = pieces_outcome_with_geometry(pre, post, pib_zero(), pib_zero(), true, false);
    let line = our_pieces_worsened_line(&out).expect("should fire");
    assert!(line.contains("a bishop got stuck behind its pawn chain"));
}
