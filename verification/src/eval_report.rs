//! The per-term table of an evaluation trace: for every term, white's and
//! black's middlegame/endgame contributions and the net (white − black),
//! with each sub-term's gloss. All numbers are the engine's internal
//! centipawns (endgame pawn = 213), pre-taper and pre-side-flip; the
//! final value is the tapered, side-to-move result.

use vstd::prelude::*;

use crate::glossary::{description, gloss, TermId};
use crate::retrospective::Score;
use crate::text::{
    pad_left_aligned, pad_right_aligned, plus_decimal, push_left_aligned, push_plus_signed,
    push_right_aligned, push_signed, push_str, signed_decimal,
};

verus! {

/// One sub-term row: its label, its term, and white's and black's scores.
#[derive(Debug, Clone, Copy)]
pub struct SubRow {
    pub label: &'static str,
    pub id: TermId,
    pub white: Score,
    pub black: Score,
}

/// What a sub-term row shows.
pub open spec fn row_view(r: SubRow) -> (Seq<char>, TermId, Score, Score) {
    (r.label@, r.id, r.white, r.black)
}

pub open spec fn rows_view(v: Seq<SubRow>) -> Seq<(Seq<char>, TermId, Score, Score)> {
    Seq::new(v.len(), |i: int| row_view(v[i]))
}

/// One side's pawn-structure terms, and their total as the engine sums them.
#[derive(Debug, Clone, Copy)]
pub struct PawnsBreakdown {
    pub connected: Score,
    pub isolated: Score,
    pub backward: Score,
    pub doubled: Score,
    pub weak_unopposed: Score,
    pub weak_lever: Score,
    pub total: Score,
}

/// The sub-term rows of the pawn-structure terms, in table order.
pub open spec fn pawns_rows(w: PawnsBreakdown, b: PawnsBreakdown) -> Seq<(Seq<char>, TermId, Score, Score)> {
    seq![
        ("connected"@, TermId::PawnsConnected, w.connected, b.connected),
        ("isolated"@, TermId::PawnsIsolated, w.isolated, b.isolated),
        ("backward"@, TermId::PawnsBackward, w.backward, b.backward),
        ("doubled"@, TermId::PawnsDoubled, w.doubled, b.doubled),
        ("weak-unopposed"@, TermId::PawnsWeakUnopposed, w.weak_unopposed, b.weak_unopposed),
        ("weak-lever"@, TermId::PawnsWeakLever, w.weak_lever, b.weak_lever),
    ]
}

fn pawns_sub_rows(w: &PawnsBreakdown, b: &PawnsBreakdown) -> (r: Vec<SubRow>)
    ensures
        rows_view(r@) == pawns_rows(*w, *b),
{
    let mut r: Vec<SubRow> = Vec::new();
    r.push(SubRow { label: "connected", id: TermId::PawnsConnected, white: w.connected, black: b.connected });
    r.push(SubRow { label: "isolated", id: TermId::PawnsIsolated, white: w.isolated, black: b.isolated });
    r.push(SubRow { label: "backward", id: TermId::PawnsBackward, white: w.backward, black: b.backward });
    r.push(SubRow { label: "doubled", id: TermId::PawnsDoubled, white: w.doubled, black: b.doubled });
    r.push(SubRow { label: "weak-unopposed", id: TermId::PawnsWeakUnopposed, white: w.weak_unopposed, black: b.weak_unopposed });
    r.push(SubRow { label: "weak-lever", id: TermId::PawnsWeakLever, white: w.weak_lever, black: b.weak_lever });
    assert(rows_view(r@) =~= pawns_rows(*w, *b));
    r
}

/// One side's per-piece positional terms, and their total as the engine sums them.
#[derive(Debug, Clone, Copy)]
pub struct PiecesBreakdown {
    pub outposts: Score,
    pub reachable_outposts: Score,
    pub minor_behind_pawn: Score,
    pub king_protector: Score,
    pub bishop_pawns: Score,
    pub long_diagonal_bishop: Score,
    pub rook_on_queen_file: Score,
    pub rook_on_open_file: Score,
    pub rook_on_semiopen_file: Score,
    pub trapped_rook: Score,
    pub weak_queen: Score,
    pub total: Score,
}

/// The sub-term rows of the per-piece positional terms, in table order.
pub open spec fn pieces_rows(w: PiecesBreakdown, b: PiecesBreakdown) -> Seq<(Seq<char>, TermId, Score, Score)> {
    seq![
        ("outposts"@, TermId::PiecesOutposts, w.outposts, b.outposts),
        ("reachable-outposts"@, TermId::PiecesReachableOutposts, w.reachable_outposts, b.reachable_outposts),
        ("minor-behind-pawn"@, TermId::PiecesMinorBehindPawn, w.minor_behind_pawn, b.minor_behind_pawn),
        ("king-protector"@, TermId::PiecesKingProtector, w.king_protector, b.king_protector),
        ("bishop-pawns"@, TermId::PiecesBishopPawns, w.bishop_pawns, b.bishop_pawns),
        ("long-diagonal-bishop"@, TermId::PiecesLongDiagonalBishop, w.long_diagonal_bishop, b.long_diagonal_bishop),
        ("rook-on-queen-file"@, TermId::PiecesRookOnQueenFile, w.rook_on_queen_file, b.rook_on_queen_file),
        ("rook-on-open-file"@, TermId::PiecesRookOnOpenFile, w.rook_on_open_file, b.rook_on_open_file),
        ("rook-on-semiopen-file"@, TermId::PiecesRookOnSemiopenFile, w.rook_on_semiopen_file, b.rook_on_semiopen_file),
        ("trapped-rook"@, TermId::PiecesTrappedRook, w.trapped_rook, b.trapped_rook),
        ("weak-queen"@, TermId::PiecesWeakQueen, w.weak_queen, b.weak_queen),
    ]
}

fn pieces_sub_rows(w: &PiecesBreakdown, b: &PiecesBreakdown) -> (r: Vec<SubRow>)
    ensures
        rows_view(r@) == pieces_rows(*w, *b),
{
    let mut r: Vec<SubRow> = Vec::new();
    r.push(SubRow { label: "outposts", id: TermId::PiecesOutposts, white: w.outposts, black: b.outposts });
    r.push(SubRow { label: "reachable-outposts", id: TermId::PiecesReachableOutposts, white: w.reachable_outposts, black: b.reachable_outposts });
    r.push(SubRow { label: "minor-behind-pawn", id: TermId::PiecesMinorBehindPawn, white: w.minor_behind_pawn, black: b.minor_behind_pawn });
    r.push(SubRow { label: "king-protector", id: TermId::PiecesKingProtector, white: w.king_protector, black: b.king_protector });
    r.push(SubRow { label: "bishop-pawns", id: TermId::PiecesBishopPawns, white: w.bishop_pawns, black: b.bishop_pawns });
    r.push(SubRow { label: "long-diagonal-bishop", id: TermId::PiecesLongDiagonalBishop, white: w.long_diagonal_bishop, black: b.long_diagonal_bishop });
    r.push(SubRow { label: "rook-on-queen-file", id: TermId::PiecesRookOnQueenFile, white: w.rook_on_queen_file, black: b.rook_on_queen_file });
    r.push(SubRow { label: "rook-on-open-file", id: TermId::PiecesRookOnOpenFile, white: w.rook_on_open_file, black: b.rook_on_open_file });
    r.push(SubRow { label: "rook-on-semiopen-file", id: TermId::PiecesRookOnSemiopenFile, white: w.rook_on_semiopen_file, black: b.rook_on_semiopen_file });
    r.push(SubRow { label: "trapped-rook", id: TermId::PiecesTrappedRook, white: w.trapped_rook, black: b.trapped_rook });
    r.push(SubRow { label: "weak-queen", id: TermId::PiecesWeakQueen, white: w.weak_queen, black: b.weak_queen });
    assert(rows_view(r@) =~= pieces_rows(*w, *b));
    r
}

/// One side's mobility terms, one per piece type, and their total as the engine sums them.
#[derive(Debug, Clone, Copy)]
pub struct MobilityBreakdown {
    pub knight: Score,
    pub bishop: Score,
    pub rook: Score,
    pub queen: Score,
    pub total: Score,
}

/// The sub-term rows of the mobility terms, one per piece type, in table order.
pub open spec fn mobility_rows(w: MobilityBreakdown, b: MobilityBreakdown) -> Seq<(Seq<char>, TermId, Score, Score)> {
    seq![
        ("knight"@, TermId::MobilityKnight, w.knight, b.knight),
        ("bishop"@, TermId::MobilityBishop, w.bishop, b.bishop),
        ("rook"@, TermId::MobilityRook, w.rook, b.rook),
        ("queen"@, TermId::MobilityQueen, w.queen, b.queen),
    ]
}

fn mobility_sub_rows(w: &MobilityBreakdown, b: &MobilityBreakdown) -> (r: Vec<SubRow>)
    ensures
        rows_view(r@) == mobility_rows(*w, *b),
{
    let mut r: Vec<SubRow> = Vec::new();
    r.push(SubRow { label: "knight", id: TermId::MobilityKnight, white: w.knight, black: b.knight });
    r.push(SubRow { label: "bishop", id: TermId::MobilityBishop, white: w.bishop, black: b.bishop });
    r.push(SubRow { label: "rook", id: TermId::MobilityRook, white: w.rook, black: b.rook });
    r.push(SubRow { label: "queen", id: TermId::MobilityQueen, white: w.queen, black: b.queen });
    assert(rows_view(r@) =~= mobility_rows(*w, *b));
    r
}

/// One side's threat terms, and their total as the engine sums them.
#[derive(Debug, Clone, Copy)]
pub struct ThreatsBreakdown {
    pub by_minor: Score,
    pub by_rook: Score,
    pub by_king: Score,
    pub hanging: Score,
    pub restricted: Score,
    pub by_safe_pawn: Score,
    pub by_pawn_push: Score,
    pub knight_on_queen: Score,
    pub slider_on_queen: Score,
    pub total: Score,
}

/// The sub-term rows of the threat terms, in table order.
pub open spec fn threats_rows(w: ThreatsBreakdown, b: ThreatsBreakdown) -> Seq<(Seq<char>, TermId, Score, Score)> {
    seq![
        ("by-minor"@, TermId::ThreatsByMinor, w.by_minor, b.by_minor),
        ("by-rook"@, TermId::ThreatsByRook, w.by_rook, b.by_rook),
        ("by-king"@, TermId::ThreatsByKing, w.by_king, b.by_king),
        ("hanging"@, TermId::ThreatsHanging, w.hanging, b.hanging),
        ("restricted"@, TermId::ThreatsRestricted, w.restricted, b.restricted),
        ("by-safe-pawn"@, TermId::ThreatsBySafePawn, w.by_safe_pawn, b.by_safe_pawn),
        ("by-pawn-push"@, TermId::ThreatsByPawnPush, w.by_pawn_push, b.by_pawn_push),
        ("knight-on-queen"@, TermId::ThreatsKnightOnQueen, w.knight_on_queen, b.knight_on_queen),
        ("slider-on-queen"@, TermId::ThreatsSliderOnQueen, w.slider_on_queen, b.slider_on_queen),
    ]
}

fn threats_sub_rows(w: &ThreatsBreakdown, b: &ThreatsBreakdown) -> (r: Vec<SubRow>)
    ensures
        rows_view(r@) == threats_rows(*w, *b),
{
    let mut r: Vec<SubRow> = Vec::new();
    r.push(SubRow { label: "by-minor", id: TermId::ThreatsByMinor, white: w.by_minor, black: b.by_minor });
    r.push(SubRow { label: "by-rook", id: TermId::ThreatsByRook, white: w.by_rook, black: b.by_rook });
    r.push(SubRow { label: "by-king", id: TermId::ThreatsByKing, white: w.by_king, black: b.by_king });
    r.push(SubRow { label: "hanging", id: TermId::ThreatsHanging, white: w.hanging, black: b.hanging });
    r.push(SubRow { label: "restricted", id: TermId::ThreatsRestricted, white: w.restricted, black: b.restricted });
    r.push(SubRow { label: "by-safe-pawn", id: TermId::ThreatsBySafePawn, white: w.by_safe_pawn, black: b.by_safe_pawn });
    r.push(SubRow { label: "by-pawn-push", id: TermId::ThreatsByPawnPush, white: w.by_pawn_push, black: b.by_pawn_push });
    r.push(SubRow { label: "knight-on-queen", id: TermId::ThreatsKnightOnQueen, white: w.knight_on_queen, black: b.knight_on_queen });
    r.push(SubRow { label: "slider-on-queen", id: TermId::ThreatsSliderOnQueen, white: w.slider_on_queen, black: b.slider_on_queen });
    assert(rows_view(r@) =~= threats_rows(*w, *b));
    r
}

/// One side's king-safety terms, and their total as the engine sums them.
#[derive(Debug, Clone, Copy)]
pub struct KingBreakdown {
    pub pawn_shield: Score,
    pub pawn_storm: Score,
    pub king_pawn_distance: Score,
    pub danger: Score,
    pub pawnless_flank: Score,
    pub flank_attacks: Score,
    pub total: Score,
}

/// The sub-term rows of the king-safety terms, in table order.
pub open spec fn king_rows(w: KingBreakdown, b: KingBreakdown) -> Seq<(Seq<char>, TermId, Score, Score)> {
    seq![
        ("pawn-shield"@, TermId::KingPawnShield, w.pawn_shield, b.pawn_shield),
        ("pawn-storm"@, TermId::KingPawnStorm, w.pawn_storm, b.pawn_storm),
        ("pawn-distance"@, TermId::KingPawnDistance, w.king_pawn_distance, b.king_pawn_distance),
        ("danger"@, TermId::KingDanger, w.danger, b.danger),
        ("pawnless-flank"@, TermId::KingPawnlessFlank, w.pawnless_flank, b.pawnless_flank),
        ("flank-attacks"@, TermId::KingFlankAttacks, w.flank_attacks, b.flank_attacks),
    ]
}

fn king_sub_rows(w: &KingBreakdown, b: &KingBreakdown) -> (r: Vec<SubRow>)
    ensures
        rows_view(r@) == king_rows(*w, *b),
{
    let mut r: Vec<SubRow> = Vec::new();
    r.push(SubRow { label: "pawn-shield", id: TermId::KingPawnShield, white: w.pawn_shield, black: b.pawn_shield });
    r.push(SubRow { label: "pawn-storm", id: TermId::KingPawnStorm, white: w.pawn_storm, black: b.pawn_storm });
    r.push(SubRow { label: "pawn-distance", id: TermId::KingPawnDistance, white: w.king_pawn_distance, black: b.king_pawn_distance });
    r.push(SubRow { label: "danger", id: TermId::KingDanger, white: w.danger, black: b.danger });
    r.push(SubRow { label: "pawnless-flank", id: TermId::KingPawnlessFlank, white: w.pawnless_flank, black: b.pawnless_flank });
    r.push(SubRow { label: "flank-attacks", id: TermId::KingFlankAttacks, white: w.flank_attacks, black: b.flank_attacks });
    assert(rows_view(r@) =~= king_rows(*w, *b));
    r
}

/// One side's passed-pawn terms, and their total as the engine sums them.
#[derive(Debug, Clone, Copy)]
pub struct PassedBreakdown {
    pub rank_bonus: Score,
    pub king_proximity: Score,
    pub free_advance: Score,
    pub stopper_penalty: Score,
    pub total: Score,
}

/// The sub-term rows of the passed-pawn terms, in table order.
pub open spec fn passed_rows(w: PassedBreakdown, b: PassedBreakdown) -> Seq<(Seq<char>, TermId, Score, Score)> {
    seq![
        ("rank-bonus"@, TermId::PassedRankBonus, w.rank_bonus, b.rank_bonus),
        ("king-proximity"@, TermId::PassedKingProximity, w.king_proximity, b.king_proximity),
        ("free-advance"@, TermId::PassedFreeAdvance, w.free_advance, b.free_advance),
        ("stopper-penalty"@, TermId::PassedStopperPenalty, w.stopper_penalty, b.stopper_penalty),
    ]
}

fn passed_sub_rows(w: &PassedBreakdown, b: &PassedBreakdown) -> (r: Vec<SubRow>)
    ensures
        rows_view(r@) == passed_rows(*w, *b),
{
    let mut r: Vec<SubRow> = Vec::new();
    r.push(SubRow { label: "rank-bonus", id: TermId::PassedRankBonus, white: w.rank_bonus, black: b.rank_bonus });
    r.push(SubRow { label: "king-proximity", id: TermId::PassedKingProximity, white: w.king_proximity, black: b.king_proximity });
    r.push(SubRow { label: "free-advance", id: TermId::PassedFreeAdvance, white: w.free_advance, black: b.free_advance });
    r.push(SubRow { label: "stopper-penalty", id: TermId::PassedStopperPenalty, white: w.stopper_penalty, black: b.stopper_penalty });
    assert(rows_view(r@) =~= passed_rows(*w, *b));
    r
}

/// Material, split into piece value and piece-square bonus.
#[derive(Debug, Clone, Copy)]
pub struct MaterialBreakdown {
    pub piece_value: Score,
    pub psq_positional: Score,
    pub total: Score,
}

/// An evaluation trace: the game phase (out of 128), the endgame scale
/// factor (out of 64), tempo and final value (engine centipawns, the
/// latter from the side to move), and every term's scores, per side
/// (white first) where the term is per side.
#[derive(Debug, Clone, Copy)]
pub struct EvalTrace {
    pub phase: i32,
    pub scale_factor: i32,
    pub tempo: i32,
    pub final_value: i32,
    pub pawns: [PawnsBreakdown; 2],
    pub pieces: [PiecesBreakdown; 2],
    pub mobility: [MobilityBreakdown; 2],
    pub threats: [ThreatsBreakdown; 2],
    pub king: [KingBreakdown; 2],
    pub passed: [PassedBreakdown; 2],
    pub space: [Score; 2],
    pub material: MaterialBreakdown,
    pub imbalance: Score,
    pub initiative: Score,
    pub total: Score,
}


/// A number right-aligned in a column of nine.
pub open spec fn col9(n: int) -> Seq<char> {
    pad_right_aligned(signed_decimal(n), 9)
}

/// The trailing `  // gloss` of a row with a term, nothing without one.
pub open spec fn gloss_suffix(id: Option<TermId>) -> Seq<char> {
    match id {
        Some(t) => "  // "@ + gloss(t),
        None => Seq::empty(),
    }
}

/// Two spaces, then a number in a column of nine.
pub open spec fn sep_col(n: int) -> Seq<char> {
    "  "@ + col9(n)
}

/// White mg/eg, black mg/eg and net (white − black) mg/eg columns.
pub open spec fn pair_cols(w: Score, b: Score) -> Seq<char> {
    sep_col(w.mg as int) + sep_col(w.eg as int) + sep_col(b.mg as int) + sep_col(b.eg as int)
        + sep_col(w.mg - b.mg) + sep_col(w.eg - b.eg)
}

/// A per-side row: the name in a column of 24, then white mg/eg, black
/// mg/eg and net (white − black) mg/eg in columns of nine, then the gloss.
pub open spec fn pair_row(name: Seq<char>, w: Score, b: Score, id: Option<TermId>) -> Seq<char> {
    pad_left_aligned(name, 24) + pair_cols(w, b) + gloss_suffix(id) + "\n"@
}

/// A net row: the name, the net mg and eg, then the gloss.
pub open spec fn net_row(name: Seq<char>, s: Score, id: Option<TermId>) -> Seq<char> {
    pad_left_aligned(name, 24) + sep_col(s.mg as int) + sep_col(s.eg as int) + gloss_suffix(id)
        + "\n"@
}

/// The sub-term rows, each indented under its aggregate.
pub open spec fn rows_text(rows: Seq<(Seq<char>, TermId, Score, Score)>) -> Seq<char>
    decreases rows.len(),
{
    if rows.len() == 0 {
        Seq::empty()
    } else {
        let r = rows.last();
        rows_text(rows.drop_last()) + pair_row("  "@ + r.0, r.2, r.3, Some(r.1))
    }
}

/// An aggregate row and its sub-term rows.
#[verifier::opaque]
pub open spec fn section_text(
    name: Seq<char>,
    w: Score,
    b: Score,
    rows: Seq<(Seq<char>, TermId, Score, Score)>,
) -> Seq<char> {
    pair_row(name, w, b, None) + rows_text(rows)
}

fn push_sep_col(out: &mut String, n: i64)
    ensures
        final(out)@ == old(out)@ + sep_col(n as int),
{
    push_str(out, "  ");
    let mut t = String::new();
    push_signed(&mut t, n);
    push_right_aligned(out, t.as_str(), 9);
    proof {
        assert(out@ =~= old(out)@ + sep_col(n as int));
    }
}

fn push_pair_cols(out: &mut String, w: Score, b: Score)
    ensures
        final(out)@ == old(out)@ + pair_cols(w, b),
{
    push_sep_col(out, w.mg as i64);
    push_sep_col(out, w.eg as i64);
    push_sep_col(out, b.mg as i64);
    push_sep_col(out, b.eg as i64);
    push_sep_col(out, w.mg as i64 - b.mg as i64);
    push_sep_col(out, w.eg as i64 - b.eg as i64);
    proof {
        assert(out@ =~= old(out)@ + pair_cols(w, b));
    }
}

fn push_gloss(out: &mut String, id: Option<TermId>)
    ensures
        final(out)@ == old(out)@ + gloss_suffix(id),
{
    match id {
        Some(t) => {
            push_str(out, "  // ");
            push_str(out, description(t));
        },
        None => {},
    }
    proof {
        assert(out@ =~= old(out)@ + gloss_suffix(id));
    }
}

/// Append a per-side row.
fn write_pair_row(out: &mut String, name: &str, w: Score, b: Score, id: Option<TermId>)
    ensures
        final(out)@ == old(out)@ + pair_row(name@, w, b, id),
{
    push_left_aligned(out, name, 24);
    push_pair_cols(out, w, b);
    push_gloss(out, id);
    push_str(out, "\n");
    proof {
        assert(out@ =~= old(out)@ + pair_row(name@, w, b, id));
    }
}

fn write_net_row(out: &mut String, name: &str, s: Score, id: Option<TermId>)
    ensures
        final(out)@ == old(out)@ + net_row(name@, s, id),
{
    push_left_aligned(out, name, 24);
    push_sep_col(out, s.mg as i64);
    push_sep_col(out, s.eg as i64);
    push_gloss(out, id);
    push_str(out, "\n");
    proof {
        assert(out@ =~= old(out)@ + net_row(name@, s, id));
    }
}

/// Append an aggregate row and its sub-term rows.
fn write_section(out: &mut String, name: &str, w: Score, b: Score, rows: &Vec<SubRow>)
    ensures
        final(out)@ == old(out)@ + section_text(name@, w, b, rows_view(rows@)),
{
    write_pair_row(out, name, w, b, None);
    let ghost head = out@;
    let mut i: usize = 0;
    while i < rows.len()
        invariant
            i <= rows@.len(),
            out@ == head + rows_text(rows_view(rows@).take(i as int)),
        decreases rows.len() - i,
    {
        let r = rows[i];
        let mut label = String::new();
        push_str(&mut label, "  ");
        push_str(&mut label, r.label);
        write_pair_row(out, label.as_str(), r.white, r.black, Some(r.id));
        proof {
            let vs = rows_view(rows@);
            assert(vs.take(i + 1).drop_last() =~= vs.take(i as int));
            assert(vs.take(i + 1).last() == row_view(r));
        }
        i = i + 1;
    }
    proof {
        reveal(section_text);
        assert(rows_view(rows@).take(rows@.len() as int) =~= rows_view(rows@));
    }
}


/// The header: phase, scale factor, tempo and final value.
pub open spec fn header_text(t: EvalTrace) -> Seq<char> {
    "phase:        "@ + signed_decimal(t.phase as int) + " / 128\n"@ + "scale factor: "@
        + signed_decimal(t.scale_factor as int) + " / 64\n"@ + "tempo:        "@ + plus_decimal(
        t.tempo as int,
    ) + " cp  (engine-internal, PawnEG=213 scale)\n"@ + "final value:  "@ + plus_decimal(
        t.final_value as int,
    ) + " cp  (engine-internal, side-to-move POV)\n"@ + "\n"@
}

/// The pawn, piece and mobility sections.
#[verifier::opaque]
pub open spec fn first_sections(t: EvalTrace) -> Seq<char> {
    section_text("pawns"@, t.pawns[0].total, t.pawns[1].total, pawns_rows(t.pawns[0], t.pawns[1]))
        + section_text(
        "pieces"@,
        t.pieces[0].total,
        t.pieces[1].total,
        pieces_rows(t.pieces[0], t.pieces[1]),
    ) + section_text(
        "mobility"@,
        t.mobility[0].total,
        t.mobility[1].total,
        mobility_rows(t.mobility[0], t.mobility[1]),
    )
}

/// The threat, king and passed-pawn sections, then the space row.
#[verifier::opaque]
pub open spec fn last_sections(t: EvalTrace) -> Seq<char> {
    section_text(
        "threats"@,
        t.threats[0].total,
        t.threats[1].total,
        threats_rows(t.threats[0], t.threats[1]),
    ) + section_text("king"@, t.king[0].total, t.king[1].total, king_rows(t.king[0], t.king[1]))
        + section_text(
        "passed"@,
        t.passed[0].total,
        t.passed[1].total,
        passed_rows(t.passed[0], t.passed[1]),
    ) + pair_row("space"@, t.space[0], t.space[1], Some(TermId::Space))
}

/// The per-side table: its heading, then pawns, pieces, mobility, threats,
/// king and passed pawns, each an aggregate row and its sub-terms, then
/// space.
pub open spec fn side_table_text(t: EvalTrace) -> Seq<char> {
    "term                       white mg   white eg   black mg   black eg     net mg     net eg\n"@ + "------------------------------------------------------------------------------------------\n"@ + first_sections(t) + last_sections(t)
}

/// The net table: material with its two parts, imbalance, initiative and
/// the total.
pub open spec fn net_table_text(t: EvalTrace) -> Seq<char> {
    "\n"@ + "term (net)                       mg         eg  description\n"@ + "------------------------------------------------------------------------------------------------------------------------------\n"@ + net_row("material"@, t.material.total, None) + net_row(
        "  piece-value"@,
        t.material.piece_value,
        Some(TermId::MaterialPieceValue),
    ) + net_row("  psq-positional"@, t.material.psq_positional, Some(TermId::MaterialPsqPositional))
        + net_row("imbalance"@, t.imbalance, Some(TermId::Imbalance)) + net_row(
        "initiative"@,
        t.initiative,
        Some(TermId::Initiative),
    ) + net_row("TOTAL"@, t.total, None)
}

/// The whole report.
pub open spec fn report_text(t: EvalTrace) -> Seq<char> {
    header_text(t) + side_table_text(t) + net_table_text(t)
}

fn push_header(out: &mut String, t: &EvalTrace)
    ensures
        final(out)@ == old(out)@ + header_text(*t),
{
    push_str(out, "phase:        ");
    push_signed(out, t.phase as i64);
    push_str(out, " / 128\n");
    push_str(out, "scale factor: ");
    push_signed(out, t.scale_factor as i64);
    push_str(out, " / 64\n");
    push_str(out, "tempo:        ");
    push_plus_signed(out, t.tempo as i64);
    push_str(out, " cp  (engine-internal, PawnEG=213 scale)\n");
    push_str(out, "final value:  ");
    push_plus_signed(out, t.final_value as i64);
    push_str(out, " cp  (engine-internal, side-to-move POV)\n");
    push_str(out, "\n");
    proof {
        assert(out@ =~= old(out)@ + header_text(*t));
    }
}

fn push_first_sections(out: &mut String, t: &EvalTrace)
    ensures
        final(out)@ == old(out)@ + first_sections(*t),
{
    write_section(out, "pawns", t.pawns[0].total, t.pawns[1].total, &pawns_sub_rows(&t.pawns[0], &t.pawns[1]));
    write_section(out, "pieces", t.pieces[0].total, t.pieces[1].total, &pieces_sub_rows(&t.pieces[0], &t.pieces[1]));
    write_section(
        out,
        "mobility",
        t.mobility[0].total,
        t.mobility[1].total,
        &mobility_sub_rows(&t.mobility[0], &t.mobility[1]),
    );
    proof {
        reveal(first_sections);
        assert(out@ =~= old(out)@ + first_sections(*t));
    }
}

fn push_last_sections(out: &mut String, t: &EvalTrace)
    ensures
        final(out)@ == old(out)@ + last_sections(*t),
{
    write_section(out, "threats", t.threats[0].total, t.threats[1].total, &threats_sub_rows(&t.threats[0], &t.threats[1]));
    write_section(out, "king", t.king[0].total, t.king[1].total, &king_sub_rows(&t.king[0], &t.king[1]));
    write_section(out, "passed", t.passed[0].total, t.passed[1].total, &passed_sub_rows(&t.passed[0], &t.passed[1]));
    write_pair_row(out, "space", t.space[0], t.space[1], Some(TermId::Space));
    proof {
        reveal(last_sections);
        assert(out@ =~= old(out)@ + last_sections(*t));
    }
}

fn push_side_table(out: &mut String, t: &EvalTrace)
    ensures
        final(out)@ == old(out)@ + side_table_text(*t),
{
    push_str(out, "term                       white mg   white eg   black mg   black eg     net mg     net eg\n");
    push_str(out, "------------------------------------------------------------------------------------------\n");
    push_first_sections(out, t);
    push_last_sections(out, t);
    proof {
        assert(out@ =~= old(out)@ + side_table_text(*t));
    }
}

fn push_net_table(out: &mut String, t: &EvalTrace)
    ensures
        final(out)@ == old(out)@ + net_table_text(*t),
{
    push_str(out, "\n");
    push_str(out, "term (net)                       mg         eg  description\n");
    push_str(out, "------------------------------------------------------------------------------------------------------------------------------\n");
    write_net_row(out, "material", t.material.total, None);
    write_net_row(out, "  piece-value", t.material.piece_value, Some(TermId::MaterialPieceValue));
    write_net_row(out, "  psq-positional", t.material.psq_positional, Some(TermId::MaterialPsqPositional));
    write_net_row(out, "imbalance", t.imbalance, Some(TermId::Imbalance));
    write_net_row(out, "initiative", t.initiative, Some(TermId::Initiative));
    write_net_row(out, "TOTAL", t.total, None);
    proof {
        assert(out@ =~= old(out)@ + net_table_text(*t));
    }
}

/// Render an evaluation trace as its per-term report.
pub fn render(trace: &EvalTrace) -> (r: String)
    ensures
        r@ == report_text(*trace),
{
    let mut out = String::new();
    push_header(&mut out, trace);
    push_side_table(&mut out, trace);
    push_net_table(&mut out, trace);
    proof {
        assert(out@ =~= report_text(*trace));
    }
    out
}

} // verus!
