//! Pawn-structure narration: per side, the pawn sub-terms that got worse
//! or better by at least a threshold; a worsening is told in preference
//! to an improvement on the same side.

use vstd::prelude::*;

use crate::retrospective::{clause_line, first_of, fits_i32, line_of, opt_line, push_indented, Score};
use crate::text::str_texts;

verus! {

/// The six pawn-structure terms of one side.
#[derive(Debug, Clone, Copy)]
pub struct PawnsBreakdown {
    pub connected: Score,
    pub isolated: Score,
    pub backward: Score,
    pub doubled: Score,
    pub weak_unopposed: Score,
    pub weak_lever: Score,
}

/// Both sides' pawn terms before and after the move.
#[derive(Debug, Clone, Copy)]
pub struct PawnStructureOutcome {
    pub ours_pre: PawnsBreakdown,
    pub ours_post: PawnsBreakdown,
    pub theirs_pre: PawnsBreakdown,
    pub theirs_post: PawnsBreakdown,
}

/// Engine-cp change of one sub-term worth narrating.
pub const PAWN_STRUCTURE_DELTA_THRESHOLD_CP: i32 = 15;

#[derive(Debug, Clone, Copy, PartialEq, Eq, Structural)]
pub enum PawnSubTerm {
    Connected,
    Isolated,
    Backward,
    Doubled,
    WeakUnopposed,
    WeakLever,
}

/// The sub-terms in the order they are narrated.
pub open spec fn pawn_terms() -> Seq<PawnSubTerm> {
    seq![
        PawnSubTerm::Connected,
        PawnSubTerm::Isolated,
        PawnSubTerm::Backward,
        PawnSubTerm::Doubled,
        PawnSubTerm::WeakUnopposed,
        PawnSubTerm::WeakLever,
    ]
}

fn pawn_term(i: usize) -> (r: PawnSubTerm)
    requires
        i < 6,
    ensures
        r == pawn_terms()[i as int],
{
    if i == 0 {
        PawnSubTerm::Connected
    } else if i == 1 {
        PawnSubTerm::Isolated
    } else if i == 2 {
        PawnSubTerm::Backward
    } else if i == 3 {
        PawnSubTerm::Doubled
    } else if i == 4 {
        PawnSubTerm::WeakUnopposed
    } else {
        PawnSubTerm::WeakLever
    }
}

impl PawnSubTerm {
    /// The sub-term's score in a breakdown.
    pub open spec fn score_in(self, b: PawnsBreakdown) -> Score {
        match self {
            PawnSubTerm::Connected => b.connected,
            PawnSubTerm::Isolated => b.isolated,
            PawnSubTerm::Backward => b.backward,
            PawnSubTerm::Doubled => b.doubled,
            PawnSubTerm::WeakUnopposed => b.weak_unopposed,
            PawnSubTerm::WeakLever => b.weak_lever,
        }
    }

    /// Middlegame change of the sub-term: positive when it improved.
    pub open spec fn spec_delta(self, pre: PawnsBreakdown, post: PawnsBreakdown) -> int {
        self.score_in(post).mg - self.score_in(pre).mg
    }

    pub fn delta_mg(self, pre: &PawnsBreakdown, post: &PawnsBreakdown) -> (r: i32)
        requires
            fits_i32(self.spec_delta(*pre, *post)),
        ensures
            r == self.spec_delta(*pre, *post),
    {
        match self {
            PawnSubTerm::Connected => post.connected.mg - pre.connected.mg,
            PawnSubTerm::Isolated => post.isolated.mg - pre.isolated.mg,
            PawnSubTerm::Backward => post.backward.mg - pre.backward.mg,
            PawnSubTerm::Doubled => post.doubled.mg - pre.doubled.mg,
            PawnSubTerm::WeakUnopposed => post.weak_unopposed.mg - pre.weak_unopposed.mg,
            PawnSubTerm::WeakLever => post.weak_lever.mg - pre.weak_lever.mg,
        }
    }

    pub open spec fn spec_worsened_phrase(self) -> Seq<char> {
        match self {
            PawnSubTerm::Connected => "broke pawn connections"@,
            PawnSubTerm::Isolated => "isolated a pawn"@,
            PawnSubTerm::Backward => "created a backward pawn"@,
            PawnSubTerm::Doubled => "doubled a pawn"@,
            PawnSubTerm::WeakUnopposed => "exposed a weak pawn"@,
            PawnSubTerm::WeakLever => "walked into a pawn lever"@,
        }
    }

    pub fn worsened_phrase(self) -> (r: &'static str)
        ensures
            r@ == self.spec_worsened_phrase(),
    {
        match self {
            PawnSubTerm::Connected => "broke pawn connections",
            PawnSubTerm::Isolated => "isolated a pawn",
            PawnSubTerm::Backward => "created a backward pawn",
            PawnSubTerm::Doubled => "doubled a pawn",
            PawnSubTerm::WeakUnopposed => "exposed a weak pawn",
            PawnSubTerm::WeakLever => "walked into a pawn lever",
        }
    }

    pub open spec fn spec_improved_phrase(self) -> Seq<char> {
        match self {
            PawnSubTerm::Connected => "connected pawns"@,
            PawnSubTerm::Isolated => "reconnected an isolated pawn"@,
            PawnSubTerm::Backward => "freed a backward pawn"@,
            PawnSubTerm::Doubled => "resolved a doubled pawn"@,
            PawnSubTerm::WeakUnopposed => "covered a weak pawn"@,
            PawnSubTerm::WeakLever => "resolved a pawn lever"@,
        }
    }

    pub fn improved_phrase(self) -> (r: &'static str)
        ensures
            r@ == self.spec_improved_phrase(),
    {
        match self {
            PawnSubTerm::Connected => "connected pawns",
            PawnSubTerm::Isolated => "reconnected an isolated pawn",
            PawnSubTerm::Backward => "freed a backward pawn",
            PawnSubTerm::Doubled => "resolved a doubled pawn",
            PawnSubTerm::WeakUnopposed => "covered a weak pawn",
            PawnSubTerm::WeakLever => "resolved a pawn lever",
        }
    }
}

/// Every sub-term's change fits in an `i32`.
pub open spec fn deltas_fit(pre: PawnsBreakdown, post: PawnsBreakdown) -> bool {
    forall|i: int| 0 <= i < 6 ==> fits_i32(#[trigger] pawn_terms()[i].spec_delta(pre, post))
}

/// Phrases of the first `k` sub-terms that moved by the threshold in the
/// given direction (`worse`: down by at least it; else up by at least it).
pub open spec fn moved_phrases(
    pre: PawnsBreakdown,
    post: PawnsBreakdown,
    worse: bool,
    k: int,
) -> Seq<Seq<char>>
    decreases k,
{
    if k <= 0 {
        Seq::empty()
    } else {
        let rest = moved_phrases(pre, post, worse, k - 1);
        let t = pawn_terms()[k - 1];
        let d = t.spec_delta(pre, post);
        if worse && d <= -PAWN_STRUCTURE_DELTA_THRESHOLD_CP {
            rest.push(t.spec_worsened_phrase())
        } else if !worse && d >= PAWN_STRUCTURE_DELTA_THRESHOLD_CP {
            rest.push(t.spec_improved_phrase())
        } else {
            rest
        }
    }
}

fn categories(pre: &PawnsBreakdown, post: &PawnsBreakdown, worse: bool) -> (r: Vec<&'static str>)
    requires
        deltas_fit(*pre, *post),
    ensures
        str_texts(r@) == moved_phrases(*pre, *post, worse, 6),
{
    let mut out: Vec<&'static str> = Vec::new();
    let mut i: usize = 0;
    while i < 6
        invariant
            i <= 6,
            deltas_fit(*pre, *post),
            str_texts(out@) == moved_phrases(*pre, *post, worse, i as int),
        decreases 6 - i,
    {
        let t = pawn_term(i);
        assert(fits_i32(pawn_terms()[i as int].spec_delta(*pre, *post)));
        let d = t.delta_mg(pre, post);
        let ghost before = out@;
        if worse && d <= -PAWN_STRUCTURE_DELTA_THRESHOLD_CP {
            out.push(t.worsened_phrase());
            assert(str_texts(out@) =~= str_texts(before).push(t.spec_worsened_phrase()));
        } else if !worse && d >= PAWN_STRUCTURE_DELTA_THRESHOLD_CP {
            out.push(t.improved_phrase());
            assert(str_texts(out@) =~= str_texts(before).push(t.spec_improved_phrase()));
        }
        i = i + 1;
    }
    out
}

/// The sub-terms that got worse, as phrases, in narration order.
pub fn worsened_pawn_categories(pre: &PawnsBreakdown, post: &PawnsBreakdown) -> (r: Vec<
    &'static str,
>)
    requires
        deltas_fit(*pre, *post),
    ensures
        str_texts(r@) == moved_phrases(*pre, *post, true, 6),
{
    categories(pre, post, true)
}

/// The sub-terms that got better, as phrases, in narration order.
pub fn improved_pawn_categories(pre: &PawnsBreakdown, post: &PawnsBreakdown) -> (r: Vec<
    &'static str,
>)
    requires
        deltas_fit(*pre, *post),
    ensures
        str_texts(r@) == moved_phrases(*pre, *post, false, 6),
{
    categories(pre, post, false)
}

pub open spec fn ours_worsened(o: PawnStructureOutcome) -> Option<Seq<char>> {
    clause_line("Your pawn structure weakened: "@, moved_phrases(o.ours_pre, o.ours_post, true, 6))
}

pub open spec fn ours_improved(o: PawnStructureOutcome) -> Option<Seq<char>> {
    clause_line("Your pawn structure improved: "@, moved_phrases(o.ours_pre, o.ours_post, false, 6))
}

pub open spec fn theirs_worsened(o: PawnStructureOutcome) -> Option<Seq<char>> {
    clause_line(
        "You weakened the opponent's pawn structure: "@,
        moved_phrases(o.theirs_pre, o.theirs_post, true, 6),
    )
}

pub open spec fn theirs_improved(o: PawnStructureOutcome) -> Option<Seq<char>> {
    clause_line(
        "The opponent's pawn structure improved: "@,
        moved_phrases(o.theirs_pre, o.theirs_post, false, 6),
    )
}

/// The outcome's sub-term changes all fit in an `i32`.
pub open spec fn outcome_fits(o: PawnStructureOutcome) -> bool {
    deltas_fit(o.ours_pre, o.ours_post) && deltas_fit(o.theirs_pre, o.theirs_post)
}

pub fn our_pawns_worsened_line(o: &PawnStructureOutcome) -> (r: Option<String>)
    requires
        deltas_fit(o.ours_pre, o.ours_post),
    ensures
        match r {
            Some(l) => ours_worsened(*o) == Some(l@),
            None => ours_worsened(*o) is None,
        },
{
    let clauses = worsened_pawn_categories(&o.ours_pre, &o.ours_post);
    line_of("Your pawn structure weakened: ", &clauses)
}

pub fn our_pawns_improved_line(o: &PawnStructureOutcome) -> (r: Option<String>)
    requires
        deltas_fit(o.ours_pre, o.ours_post),
    ensures
        match r {
            Some(l) => ours_improved(*o) == Some(l@),
            None => ours_improved(*o) is None,
        },
{
    let clauses = improved_pawn_categories(&o.ours_pre, &o.ours_post);
    line_of("Your pawn structure improved: ", &clauses)
}

pub fn their_pawns_worsened_line(o: &PawnStructureOutcome) -> (r: Option<String>)
    requires
        deltas_fit(o.theirs_pre, o.theirs_post),
    ensures
        match r {
            Some(l) => theirs_worsened(*o) == Some(l@),
            None => theirs_worsened(*o) is None,
        },
{
    let clauses = worsened_pawn_categories(&o.theirs_pre, &o.theirs_post);
    line_of("You weakened the opponent's pawn structure: ", &clauses)
}

pub fn their_pawns_improved_line(o: &PawnStructureOutcome) -> (r: Option<String>)
    requires
        deltas_fit(o.theirs_pre, o.theirs_post),
    ensures
        match r {
            Some(l) => theirs_improved(*o) == Some(l@),
            None => theirs_improved(*o) is None,
        },
{
    let clauses = improved_pawn_categories(&o.theirs_pre, &o.theirs_post);
    line_of("The opponent's pawn structure improved: ", &clauses)
}

/// The pawn-structure lines: ours, then theirs; per side a worsening is
/// told in preference to an improvement.
pub fn render_pawn_structure(outcome: &PawnStructureOutcome) -> (r: String)
    requires
        outcome_fits(*outcome),
    ensures
        r@ == opt_line(first_of(ours_worsened(*outcome), ours_improved(*outcome))) + opt_line(
            first_of(theirs_worsened(*outcome), theirs_improved(*outcome)),
        ),
{
    let mut out = String::new();
    let ours = match our_pawns_worsened_line(outcome) {
        Some(l) => Some(l),
        None => our_pawns_improved_line(outcome),
    };
    match &ours {
        Some(line) => push_indented(&mut out, line.as_str()),
        None => {},
    }
    let ghost a = out@;
    let theirs = match their_pawns_worsened_line(outcome) {
        Some(l) => Some(l),
        None => their_pawns_improved_line(outcome),
    };
    match &theirs {
        Some(line) => push_indented(&mut out, line.as_str()),
        None => {},
    }
    assert(out@ =~= opt_line(first_of(ours_worsened(*outcome), ours_improved(*outcome)))
        + opt_line(first_of(theirs_worsened(*outcome), theirs_improved(*outcome))));
    out
}

} // verus!
