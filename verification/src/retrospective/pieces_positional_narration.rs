//! Piece-placement narration: per side, the eleven piece-placement
//! sub-terms that got worse or better by at least a threshold; a
//! worsening is told in preference to an improvement on the same side.
//! The bishop-pawns sub-term is told only when the bishop geometry
//! really changed.

use vstd::prelude::*;

use crate::retrospective::{clause_line, first_of, fits_i32, line_of, opt_line, push_indented, Score};
use crate::text::str_texts;

verus! {

/// The eleven piece-placement terms of one side.
#[derive(Debug, Clone, Copy)]
pub struct PiecesBreakdown {
    pub outposts: Score,
    pub reachable_outposts: Score,
    pub minor_behind_pawn: Score,
    pub king_protector: Score,
    pub bishop_pawns: Score,
    pub long_diagonal_bishop: Score,
    pub rook_on_queen_file: Score,
    pub rook_on_open_file: Score,
    pub rook_on_semiopen_file: Score,
    pub trapped_rook: Score,
    pub weak_queen: Score,
}

/// Both sides' piece-placement terms before and after the move, and the
/// number of pawns on their bishops' colour before and after.
#[derive(Debug, Clone, Copy)]
pub struct PiecesPositionalOutcome {
    pub ours_pre: PiecesBreakdown,
    pub ours_post: PiecesBreakdown,
    pub theirs_pre: PiecesBreakdown,
    pub theirs_post: PiecesBreakdown,
    pub ours_bishop_pawn_count_pre: u32,
    pub ours_bishop_pawn_count_post: u32,
    pub theirs_bishop_pawn_count_pre: u32,
    pub theirs_bishop_pawn_count_post: u32,
}

impl PiecesPositionalOutcome {
    pub open spec fn spec_ours_geometry_changed(self) -> bool {
        self.ours_bishop_pawn_count_pre != self.ours_bishop_pawn_count_post
    }

    pub open spec fn spec_theirs_geometry_changed(self) -> bool {
        self.theirs_bishop_pawn_count_pre != self.theirs_bishop_pawn_count_post
    }

    /// Our pawns-on-bishop-colour count changed with the move.
    pub fn ours_bishop_pawn_count_changed(&self) -> (r: bool)
        ensures
            r == self.spec_ours_geometry_changed(),
    {
        self.ours_bishop_pawn_count_pre != self.ours_bishop_pawn_count_post
    }

    pub fn theirs_bishop_pawn_count_changed(&self) -> (r: bool)
        ensures
            r == self.spec_theirs_geometry_changed(),
    {
        self.theirs_bishop_pawn_count_pre != self.theirs_bishop_pawn_count_post
    }
}

/// Engine-cp change of one sub-term worth narrating.
pub const PIECES_POSITIONAL_DELTA_THRESHOLD_CP: i32 = 15;

#[derive(Debug, Clone, Copy, PartialEq, Eq, Structural)]
pub enum PieceSubTerm {
    Outposts,
    ReachableOutposts,
    MinorBehindPawn,
    KingProtector,
    BishopPawns,
    LongDiagonalBishop,
    RookOnQueenFile,
    RookOnOpenFile,
    RookOnSemiopenFile,
    TrappedRook,
    WeakQueen,
}

/// The sub-terms in the order they are narrated.
pub open spec fn piece_terms() -> Seq<PieceSubTerm> {
    seq![
        PieceSubTerm::Outposts,
        PieceSubTerm::ReachableOutposts,
        PieceSubTerm::MinorBehindPawn,
        PieceSubTerm::KingProtector,
        PieceSubTerm::BishopPawns,
        PieceSubTerm::LongDiagonalBishop,
        PieceSubTerm::RookOnQueenFile,
        PieceSubTerm::RookOnOpenFile,
        PieceSubTerm::RookOnSemiopenFile,
        PieceSubTerm::TrappedRook,
        PieceSubTerm::WeakQueen,
    ]
}

fn piece_term(i: usize) -> (r: PieceSubTerm)
    requires
        i < 11,
    ensures
        r == piece_terms()[i as int],
{
    if i == 0 {
        PieceSubTerm::Outposts
    } else if i == 1 {
        PieceSubTerm::ReachableOutposts
    } else if i == 2 {
        PieceSubTerm::MinorBehindPawn
    } else if i == 3 {
        PieceSubTerm::KingProtector
    } else if i == 4 {
        PieceSubTerm::BishopPawns
    } else if i == 5 {
        PieceSubTerm::LongDiagonalBishop
    } else if i == 6 {
        PieceSubTerm::RookOnQueenFile
    } else if i == 7 {
        PieceSubTerm::RookOnOpenFile
    } else if i == 8 {
        PieceSubTerm::RookOnSemiopenFile
    } else if i == 9 {
        PieceSubTerm::TrappedRook
    } else {
        PieceSubTerm::WeakQueen
    }
}

impl PieceSubTerm {
    pub open spec fn score_in(self, b: PiecesBreakdown) -> Score {
        match self {
            PieceSubTerm::Outposts => b.outposts,
            PieceSubTerm::ReachableOutposts => b.reachable_outposts,
            PieceSubTerm::MinorBehindPawn => b.minor_behind_pawn,
            PieceSubTerm::KingProtector => b.king_protector,
            PieceSubTerm::BishopPawns => b.bishop_pawns,
            PieceSubTerm::LongDiagonalBishop => b.long_diagonal_bishop,
            PieceSubTerm::RookOnQueenFile => b.rook_on_queen_file,
            PieceSubTerm::RookOnOpenFile => b.rook_on_open_file,
            PieceSubTerm::RookOnSemiopenFile => b.rook_on_semiopen_file,
            PieceSubTerm::TrappedRook => b.trapped_rook,
            PieceSubTerm::WeakQueen => b.weak_queen,
        }
    }

    /// Middlegame change of the sub-term: positive when it improved.
    pub open spec fn spec_delta(self, pre: PiecesBreakdown, post: PiecesBreakdown) -> int {
        self.score_in(post).mg - self.score_in(pre).mg
    }

    fn score_of(self, b: &PiecesBreakdown) -> (r: Score)
        ensures
            r == self.score_in(*b),
    {
        match self {
            PieceSubTerm::Outposts => b.outposts,
            PieceSubTerm::ReachableOutposts => b.reachable_outposts,
            PieceSubTerm::MinorBehindPawn => b.minor_behind_pawn,
            PieceSubTerm::KingProtector => b.king_protector,
            PieceSubTerm::BishopPawns => b.bishop_pawns,
            PieceSubTerm::LongDiagonalBishop => b.long_diagonal_bishop,
            PieceSubTerm::RookOnQueenFile => b.rook_on_queen_file,
            PieceSubTerm::RookOnOpenFile => b.rook_on_open_file,
            PieceSubTerm::RookOnSemiopenFile => b.rook_on_semiopen_file,
            PieceSubTerm::TrappedRook => b.trapped_rook,
            PieceSubTerm::WeakQueen => b.weak_queen,
        }
    }

    pub fn delta_mg(self, pre: &PiecesBreakdown, post: &PiecesBreakdown) -> (r: i32)
        requires
            fits_i32(self.spec_delta(*pre, *post)),
        ensures
            r == self.spec_delta(*pre, *post),
    {
        self.score_of(post).mg - self.score_of(pre).mg
    }

    pub open spec fn spec_worsened_phrase(self) -> Seq<char> {
        match self {
            PieceSubTerm::Outposts => "a minor lost its outpost"@,
            PieceSubTerm::ReachableOutposts => "an outpost route closed"@,
            PieceSubTerm::MinorBehindPawn => "a minor stepped out from behind its pawn"@,
            PieceSubTerm::KingProtector => "a minor drifted away from the king"@,
            PieceSubTerm::BishopPawns => "a bishop got stuck behind its pawn chain"@,
            PieceSubTerm::LongDiagonalBishop => "a bishop left the long diagonal"@,
            PieceSubTerm::RookOnQueenFile => "a rook left the queen's file"@,
            PieceSubTerm::RookOnOpenFile => "a rook left the open file"@,
            PieceSubTerm::RookOnSemiopenFile => "a rook left a semi-open file"@,
            PieceSubTerm::TrappedRook => "a rook got trapped"@,
            PieceSubTerm::WeakQueen => "the queen came under minor-piece pressure"@,
        }
    }

    pub fn worsened_phrase(self) -> (r: &'static str)
        ensures
            r@ == self.spec_worsened_phrase(),
    {
        match self {
            PieceSubTerm::Outposts => "a minor lost its outpost",
            PieceSubTerm::ReachableOutposts => "an outpost route closed",
            PieceSubTerm::MinorBehindPawn => "a minor stepped out from behind its pawn",
            PieceSubTerm::KingProtector => "a minor drifted away from the king",
            PieceSubTerm::BishopPawns => "a bishop got stuck behind its pawn chain",
            PieceSubTerm::LongDiagonalBishop => "a bishop left the long diagonal",
            PieceSubTerm::RookOnQueenFile => "a rook left the queen's file",
            PieceSubTerm::RookOnOpenFile => "a rook left the open file",
            PieceSubTerm::RookOnSemiopenFile => "a rook left a semi-open file",
            PieceSubTerm::TrappedRook => "a rook got trapped",
            PieceSubTerm::WeakQueen => "the queen came under minor-piece pressure",
        }
    }

    pub open spec fn spec_improved_phrase(self) -> Seq<char> {
        match self {
            PieceSubTerm::Outposts => "a minor claimed an outpost"@,
            PieceSubTerm::ReachableOutposts => "an outpost route opened"@,
            PieceSubTerm::MinorBehindPawn => "a minor tucked behind its pawn"@,
            PieceSubTerm::KingProtector => "a minor rallied to the king"@,
            PieceSubTerm::BishopPawns => "a bishop freed itself from its pawn chain"@,
            PieceSubTerm::LongDiagonalBishop => "a bishop claimed the long diagonal"@,
            PieceSubTerm::RookOnQueenFile => "a rook reached the queen's file"@,
            PieceSubTerm::RookOnOpenFile => "a rook claimed the open file"@,
            PieceSubTerm::RookOnSemiopenFile => "a rook claimed a semi-open file"@,
            PieceSubTerm::TrappedRook => "a rook escaped its trap"@,
            PieceSubTerm::WeakQueen => "the queen shook off minor-piece pressure"@,
        }
    }

    pub fn improved_phrase(self) -> (r: &'static str)
        ensures
            r@ == self.spec_improved_phrase(),
    {
        match self {
            PieceSubTerm::Outposts => "a minor claimed an outpost",
            PieceSubTerm::ReachableOutposts => "an outpost route opened",
            PieceSubTerm::MinorBehindPawn => "a minor tucked behind its pawn",
            PieceSubTerm::KingProtector => "a minor rallied to the king",
            PieceSubTerm::BishopPawns => "a bishop freed itself from its pawn chain",
            PieceSubTerm::LongDiagonalBishop => "a bishop claimed the long diagonal",
            PieceSubTerm::RookOnQueenFile => "a rook reached the queen's file",
            PieceSubTerm::RookOnOpenFile => "a rook claimed the open file",
            PieceSubTerm::RookOnSemiopenFile => "a rook claimed a semi-open file",
            PieceSubTerm::TrappedRook => "a rook escaped its trap",
            PieceSubTerm::WeakQueen => "the queen shook off minor-piece pressure",
        }
    }
}

/// Whether a sub-term may be narrated: bishop-pawns only when the bishop
/// geometry changed (its score also moves with the blocked-centre
/// multiplier, which no bishop move caused).
pub open spec fn spec_include(st: PieceSubTerm, bishop_geometry_changed: bool) -> bool {
    st != PieceSubTerm::BishopPawns || bishop_geometry_changed
}

pub fn include_bishop_pawns(st: PieceSubTerm, bishop_geometry_changed: bool) -> (r: bool)
    ensures
        r == spec_include(st, bishop_geometry_changed),
{
    st != PieceSubTerm::BishopPawns || bishop_geometry_changed
}

/// Every sub-term's change fits in an `i32`.
pub open spec fn deltas_fit(pre: PiecesBreakdown, post: PiecesBreakdown) -> bool {
    forall|i: int| 0 <= i < 11 ==> fits_i32(#[trigger] piece_terms()[i].spec_delta(pre, post))
}

/// Phrases of the first `k` narratable sub-terms that moved by the
/// threshold in the given direction.
pub open spec fn moved_phrases(
    pre: PiecesBreakdown,
    post: PiecesBreakdown,
    geometry_changed: bool,
    worse: bool,
    k: int,
) -> Seq<Seq<char>>
    decreases k,
{
    if k <= 0 {
        Seq::empty()
    } else {
        let rest = moved_phrases(pre, post, geometry_changed, worse, k - 1);
        let t = piece_terms()[k - 1];
        let d = t.spec_delta(pre, post);
        if !spec_include(t, geometry_changed) {
            rest
        } else if worse && d <= -PIECES_POSITIONAL_DELTA_THRESHOLD_CP {
            rest.push(t.spec_worsened_phrase())
        } else if !worse && d >= PIECES_POSITIONAL_DELTA_THRESHOLD_CP {
            rest.push(t.spec_improved_phrase())
        } else {
            rest
        }
    }
}

fn categories(
    pre: &PiecesBreakdown,
    post: &PiecesBreakdown,
    geometry_changed: bool,
    worse: bool,
) -> (r: Vec<&'static str>)
    requires
        deltas_fit(*pre, *post),
    ensures
        str_texts(r@) == moved_phrases(*pre, *post, geometry_changed, worse, 11),
{
    let mut out: Vec<&'static str> = Vec::new();
    let mut i: usize = 0;
    while i < 11
        invariant
            i <= 11,
            deltas_fit(*pre, *post),
            str_texts(out@) == moved_phrases(*pre, *post, geometry_changed, worse, i as int),
        decreases 11 - i,
    {
        let t = piece_term(i);
        assert(fits_i32(piece_terms()[i as int].spec_delta(*pre, *post)));
        let d = t.delta_mg(pre, post);
        let ghost before = out@;
        if include_bishop_pawns(t, geometry_changed) {
            if worse && d <= -PIECES_POSITIONAL_DELTA_THRESHOLD_CP {
                out.push(t.worsened_phrase());
                assert(str_texts(out@) =~= str_texts(before).push(t.spec_worsened_phrase()));
            } else if !worse && d >= PIECES_POSITIONAL_DELTA_THRESHOLD_CP {
                out.push(t.improved_phrase());
                assert(str_texts(out@) =~= str_texts(before).push(t.spec_improved_phrase()));
            }
        }
        i = i + 1;
    }
    out
}

pub fn worsened_pieces_categories(
    pre: &PiecesBreakdown,
    post: &PiecesBreakdown,
    bishop_geometry_changed: bool,
) -> (r: Vec<&'static str>)
    requires
        deltas_fit(*pre, *post),
    ensures
        str_texts(r@) == moved_phrases(*pre, *post, bishop_geometry_changed, true, 11),
{
    categories(pre, post, bishop_geometry_changed, true)
}

pub fn improved_pieces_categories(
    pre: &PiecesBreakdown,
    post: &PiecesBreakdown,
    bishop_geometry_changed: bool,
) -> (r: Vec<&'static str>)
    requires
        deltas_fit(*pre, *post),
    ensures
        str_texts(r@) == moved_phrases(*pre, *post, bishop_geometry_changed, false, 11),
{
    categories(pre, post, bishop_geometry_changed, false)
}

pub open spec fn ours_worsened(o: PiecesPositionalOutcome) -> Option<Seq<char>> {
    clause_line(
        "Your piece placement weakened: "@,
        moved_phrases(o.ours_pre, o.ours_post, o.spec_ours_geometry_changed(), true, 11),
    )
}

pub open spec fn ours_improved(o: PiecesPositionalOutcome) -> Option<Seq<char>> {
    clause_line(
        "Your piece placement improved: "@,
        moved_phrases(o.ours_pre, o.ours_post, o.spec_ours_geometry_changed(), false, 11),
    )
}

pub open spec fn theirs_worsened(o: PiecesPositionalOutcome) -> Option<Seq<char>> {
    clause_line(
        "You weakened the opponent's piece placement: "@,
        moved_phrases(o.theirs_pre, o.theirs_post, o.spec_theirs_geometry_changed(), true, 11),
    )
}

pub open spec fn theirs_improved(o: PiecesPositionalOutcome) -> Option<Seq<char>> {
    clause_line(
        "The opponent's piece placement improved: "@,
        moved_phrases(o.theirs_pre, o.theirs_post, o.spec_theirs_geometry_changed(), false, 11),
    )
}

pub open spec fn outcome_fits(o: PiecesPositionalOutcome) -> bool {
    deltas_fit(o.ours_pre, o.ours_post) && deltas_fit(o.theirs_pre, o.theirs_post)
}

pub fn our_pieces_worsened_line(o: &PiecesPositionalOutcome) -> (r: Option<String>)
    requires
        deltas_fit(o.ours_pre, o.ours_post),
    ensures
        match r {
            Some(l) => ours_worsened(*o) == Some(l@),
            None => ours_worsened(*o) is None,
        },
{
    let clauses = worsened_pieces_categories(
        &o.ours_pre,
        &o.ours_post,
        o.ours_bishop_pawn_count_changed(),
    );
    line_of("Your piece placement weakened: ", &clauses)
}

pub fn our_pieces_improved_line(o: &PiecesPositionalOutcome) -> (r: Option<String>)
    requires
        deltas_fit(o.ours_pre, o.ours_post),
    ensures
        match r {
            Some(l) => ours_improved(*o) == Some(l@),
            None => ours_improved(*o) is None,
        },
{
    let clauses = improved_pieces_categories(
        &o.ours_pre,
        &o.ours_post,
        o.ours_bishop_pawn_count_changed(),
    );
    line_of("Your piece placement improved: ", &clauses)
}

pub fn their_pieces_worsened_line(o: &PiecesPositionalOutcome) -> (r: Option<String>)
    requires
        deltas_fit(o.theirs_pre, o.theirs_post),
    ensures
        match r {
            Some(l) => theirs_worsened(*o) == Some(l@),
            None => theirs_worsened(*o) is None,
        },
{
    let clauses = worsened_pieces_categories(
        &o.theirs_pre,
        &o.theirs_post,
        o.theirs_bishop_pawn_count_changed(),
    );
    line_of("You weakened the opponent's piece placement: ", &clauses)
}

pub fn their_pieces_improved_line(o: &PiecesPositionalOutcome) -> (r: Option<String>)
    requires
        deltas_fit(o.theirs_pre, o.theirs_post),
    ensures
        match r {
            Some(l) => theirs_improved(*o) == Some(l@),
            None => theirs_improved(*o) is None,
        },
{
    let clauses = improved_pieces_categories(
        &o.theirs_pre,
        &o.theirs_post,
        o.theirs_bishop_pawn_count_changed(),
    );
    line_of("The opponent's piece placement improved: ", &clauses)
}

/// The piece-placement lines: ours, then theirs; per side a worsening is
/// told in preference to an improvement.
pub fn render_pieces_positional(outcome: &PiecesPositionalOutcome) -> (r: String)
    requires
        outcome_fits(*outcome),
    ensures
        r@ == opt_line(first_of(ours_worsened(*outcome), ours_improved(*outcome))) + opt_line(
            first_of(theirs_worsened(*outcome), theirs_improved(*outcome)),
        ),
{
    let mut out = String::new();
    let ours = match our_pieces_worsened_line(outcome) {
        Some(l) => Some(l),
        None => our_pieces_improved_line(outcome),
    };
    match &ours {
        Some(line) => push_indented(&mut out, line.as_str()),
        None => {},
    }
    let theirs = match their_pieces_worsened_line(outcome) {
        Some(l) => Some(l),
        None => their_pieces_improved_line(outcome),
    };
    match &theirs {
        Some(line) => push_indented(&mut out, line.as_str()),
        None => {},
    }
    assert(out@ =~= opt_line(first_of(ours_worsened(*outcome), ours_improved(*outcome)))
        + opt_line(first_of(theirs_worsened(*outcome), theirs_improved(*outcome))));
    out
}

} // verus!
