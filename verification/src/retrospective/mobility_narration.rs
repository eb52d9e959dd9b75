//! Mobility narration: one line per side naming the piece type whose
//! mobility moved the most, when it moved by at least a threshold.

use vstd::prelude::*;

use crate::retrospective::{abs, format_shelter_pawns, opt_line, pawns_text, push_indented, Score};
use crate::text::push_str;

verus! {

/// Mobility terms of one side, per piece type.
#[derive(Debug, Clone, Copy)]
pub struct MobilityBreakdown {
    pub knight: Score,
    pub bishop: Score,
    pub rook: Score,
    pub queen: Score,
}

/// Both sides' mobility before and after the move.
#[derive(Debug, Clone, Copy)]
pub struct MobilityOutcome {
    pub ours_pre: MobilityBreakdown,
    pub ours_post: MobilityBreakdown,
    pub theirs_pre: MobilityBreakdown,
    pub theirs_post: MobilityBreakdown,
}

/// Engine-cp change worth narrating.
pub const MOBILITY_DELTA_THRESHOLD_CP: i32 = 50;

/// The piece-type label of candidate `i`.
pub open spec fn label_of(i: int) -> Seq<char> {
    if i == 0 {
        "knight"@
    } else if i == 1 {
        "bishop"@
    } else if i == 2 {
        "rook"@
    } else {
        "queen"@
    }
}

/// The middlegame mobility of candidate `i` in a breakdown.
pub open spec fn mg_of(b: MobilityBreakdown, i: int) -> int {
    if i == 0 {
        b.knight.mg as int
    } else if i == 1 {
        b.bishop.mg as int
    } else if i == 2 {
        b.rook.mg as int
    } else {
        b.queen.mg as int
    }
}

pub open spec fn shift(pre: MobilityBreakdown, post: MobilityBreakdown, i: int) -> int {
    abs(mg_of(post, i) - mg_of(pre, i))
}

/// The candidate among the first `k` with the largest shift; the last
/// one on a tie.
pub open spec fn biggest(pre: MobilityBreakdown, post: MobilityBreakdown, k: int) -> int
    decreases k,
{
    if k <= 1 {
        0
    } else {
        let b = biggest(pre, post, k - 1);
        if shift(pre, post, k - 1) >= shift(pre, post, b) {
            k - 1
        } else {
            b
        }
    }
}

/// Every change is an `i32` whose magnitude is an `i32` too.
pub open spec fn shifts_fit(pre: MobilityBreakdown, post: MobilityBreakdown) -> bool {
    forall|i: int|
        0 <= i < 4 ==> i32::MIN < #[trigger] (mg_of(post, i) - mg_of(pre, i)) <= i32::MAX
}

/// The piece type whose mobility moved the most (label, change, before,
/// after), when that change reaches the threshold.
pub open spec fn spec_biggest_shift(pre: MobilityBreakdown, post: MobilityBreakdown) -> Option<
    (Seq<char>, int, int, int),
> {
    let i = biggest(pre, post, 4);
    let d = mg_of(post, i) - mg_of(pre, i);
    if abs(d) < MOBILITY_DELTA_THRESHOLD_CP {
        None
    } else {
        Some((label_of(i), d, mg_of(pre, i), mg_of(post, i)))
    }
}

proof fn lemma_biggest_range(pre: MobilityBreakdown, post: MobilityBreakdown, k: int)
    requires
        k >= 1,
    ensures
        0 <= biggest(pre, post, k) < k,
    decreases k,
{
    if k > 1 {
        lemma_biggest_range(pre, post, k - 1);
    }
}

fn candidate(b: &MobilityBreakdown, i: usize) -> (r: i32)
    requires
        i < 4,
    ensures
        r == mg_of(*b, i as int),
{
    if i == 0 {
        b.knight.mg
    } else if i == 1 {
        b.bishop.mg
    } else if i == 2 {
        b.rook.mg
    } else {
        b.queen.mg
    }
}

fn label(i: usize) -> (r: &'static str)
    requires
        i < 4,
    ensures
        r@ == label_of(i as int),
{
    if i == 0 {
        "knight"
    } else if i == 1 {
        "bishop"
    } else if i == 2 {
        "rook"
    } else {
        "queen"
    }
}

fn abs_i32(x: i32) -> (r: i32)
    requires
        x > i32::MIN,
    ensures
        r == abs(x as int),
{
    if x < 0 {
        -x
    } else {
        x
    }
}

pub fn mobility_biggest_shift(pre: &MobilityBreakdown, post: &MobilityBreakdown) -> (r: Option<
    (&'static str, i32, i32, i32),
>)
    requires
        shifts_fit(*pre, *post),
    ensures
        match r {
            Some((l, d, a, b)) => spec_biggest_shift(*pre, *post) == Some(
                (l@, d as int, a as int, b as int),
            ),
            None => spec_biggest_shift(*pre, *post) is None,
        },
{
    let mut best: usize = 0;
    let mut best_shift: i32 = {
        let d = candidate(post, 0) - candidate(pre, 0);
        assert(i32::MIN < mg_of(*post, 0) - mg_of(*pre, 0) <= i32::MAX);
        abs_i32(d)
    };
    let mut i: usize = 1;
    while i < 4
        invariant
            1 <= i <= 4,
            shifts_fit(*pre, *post),
            best as int == biggest(*pre, *post, i as int),
            best < i,
            best_shift as int == shift(*pre, *post, best as int),
        decreases 4 - i,
    {
        assert(i32::MIN < mg_of(*post, i as int) - mg_of(*pre, i as int) <= i32::MAX);
        let s = abs_i32(candidate(post, i) - candidate(pre, i));
        if s >= best_shift {
            best = i;
            best_shift = s;
        }
        i = i + 1;
    }
    assert(i32::MIN < mg_of(*post, best as int) - mg_of(*pre, best as int) <= i32::MAX);
    let pre_mg = candidate(pre, best);
    let post_mg = candidate(post, best);
    let delta = post_mg - pre_mg;
    if abs_i32(delta) < MOBILITY_DELTA_THRESHOLD_CP {
        return None;
    }
    Some((label(best), delta, pre_mg, post_mg))
}

/// "(before → after)" in signed pawns.
pub open spec fn change_text(a: int, b: int) -> Seq<char> {
    " ("@ + pawns_text(a) + " → "@ + pawns_text(b) + ")."@
}

pub open spec fn spec_ours(o: MobilityOutcome) -> Option<Seq<char>> {
    match spec_biggest_shift(o.ours_pre, o.ours_post) {
        Some((l, d, a, b)) => Some(
            "Your "@ + l + " activity "@ + (if d < 0 {
                "dropped"@
            } else {
                "improved"@
            }) + change_text(a, b),
        ),
        None => None,
    }
}

pub open spec fn spec_theirs(o: MobilityOutcome) -> Option<Seq<char>> {
    match spec_biggest_shift(o.theirs_pre, o.theirs_post) {
        Some((l, d, a, b)) => Some(
            if d < 0 {
                "You restricted the opponent's "@ + l + " activity"@ + change_text(a, b)
            } else {
                "The opponent's "@ + l + " activity improved"@ + change_text(a, b)
            },
        ),
        None => None,
    }
}

fn push_change(out: &mut String, a: i32, b: i32)
    ensures
        final(out)@ == old(out)@ + change_text(a as int, b as int),
{
    push_str(out, " (");
    let x = format_shelter_pawns(a);
    push_str(out, x.as_str());
    push_str(out, " → ");
    let y = format_shelter_pawns(b);
    push_str(out, y.as_str());
    push_str(out, ").");
    assert(out@ =~= old(out)@ + change_text(a as int, b as int));
}

pub fn our_mobility_line(o: &MobilityOutcome) -> (r: Option<String>)
    requires
        shifts_fit(o.ours_pre, o.ours_post),
    ensures
        match r {
            Some(l) => spec_ours(*o) == Some(l@),
            None => spec_ours(*o) is None,
        },
{
    let (label, delta, pre, post) = match mobility_biggest_shift(&o.ours_pre, &o.ours_post) {
        Some(t) => t,
        None => return None,
    };
    let mut out = String::new();
    push_str(&mut out, "Your ");
    push_str(&mut out, label);
    push_str(&mut out, " activity ");
    if delta < 0 {
        push_str(&mut out, "dropped");
    } else {
        push_str(&mut out, "improved");
    }
    let ghost head = out@;
    push_change(&mut out, pre, post);
    Some(out)
}

pub fn their_mobility_line(o: &MobilityOutcome) -> (r: Option<String>)
    requires
        shifts_fit(o.theirs_pre, o.theirs_post),
    ensures
        match r {
            Some(l) => spec_theirs(*o) == Some(l@),
            None => spec_theirs(*o) is None,
        },
{
    let (label, delta, pre, post) = match mobility_biggest_shift(&o.theirs_pre, &o.theirs_post) {
        Some(t) => t,
        None => return None,
    };
    let mut out = String::new();
    if delta < 0 {
        push_str(&mut out, "You restricted the opponent's ");
        push_str(&mut out, label);
        push_str(&mut out, " activity");
    } else {
        push_str(&mut out, "The opponent's ");
        push_str(&mut out, label);
        push_str(&mut out, " activity improved");
    }
    push_change(&mut out, pre, post);
    Some(out)
}

pub open spec fn outcome_fits(o: MobilityOutcome) -> bool {
    shifts_fit(o.ours_pre, o.ours_post) && shifts_fit(o.theirs_pre, o.theirs_post)
}

/// The mobility lines, ours then theirs, each when it fires.
pub fn render_mobility(outcome: &MobilityOutcome) -> (r: String)
    requires
        outcome_fits(*outcome),
    ensures
        r@ == opt_line(spec_ours(*outcome)) + opt_line(spec_theirs(*outcome)),
{
    let mut out = String::new();
    match our_mobility_line(outcome) {
        Some(line) => push_indented(&mut out, line.as_str()),
        None => {},
    }
    match their_mobility_line(outcome) {
        Some(line) => push_indented(&mut out, line.as_str()),
        None => {},
    }
    assert(out@ =~= opt_line(spec_ours(*outcome)) + opt_line(spec_theirs(*outcome)));
    out
}

} // verus!
