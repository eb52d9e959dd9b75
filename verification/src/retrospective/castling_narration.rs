//! Castling loss together with a trapped rook: a side that just lost its
//! last castling right while a rook is boxed in by its king gets a line
//! of its own (the trapped-rook penalty doubles when castling is gone).

use vstd::prelude::*;

use crate::retrospective::{abs, indented, opt_line, push_indented};

verus! {

/// Castling rights before and after the move, and the trapped-rook
/// penalty after it, for both sides.
#[derive(Debug, Clone, Copy)]
pub struct CastlingOutcome {
    pub ours_could_castle_pre: bool,
    pub ours_could_castle_post: bool,
    pub theirs_could_castle_pre: bool,
    pub theirs_could_castle_post: bool,
    pub ours_trapped_rook_post_mg: i32,
    pub theirs_trapped_rook_post_mg: i32,
}

impl CastlingOutcome {
    /// We could castle before the move and cannot after it.
    pub open spec fn spec_ours_lost_castling(self) -> bool {
        self.ours_could_castle_pre && !self.ours_could_castle_post
    }

    pub open spec fn spec_theirs_lost_castling(self) -> bool {
        self.theirs_could_castle_pre && !self.theirs_could_castle_post
    }

    pub fn ours_lost_castling(&self) -> (r: bool)
        ensures
            r == self.spec_ours_lost_castling(),
    {
        self.ours_could_castle_pre && !self.ours_could_castle_post
    }

    pub fn theirs_lost_castling(&self) -> (r: bool)
        ensures
            r == self.spec_theirs_lost_castling(),
    {
        self.theirs_could_castle_pre && !self.theirs_could_castle_post
    }
}

/// A trapped-rook penalty smaller than this is not worth a line.
pub const TRAPPED_ROOK_NARRATE_THRESHOLD_MG: i32 = 20;

pub open spec fn ours_text() -> Seq<char> {
    "You forfeited castling: a rook is locked in by your king with no way to free it — the trapped-rook penalty just doubled."@
}

pub open spec fn theirs_text() -> Seq<char> {
    "You stripped the opponent of castling: a rook of theirs is locked in by their king with no way out."@
}

pub open spec fn spec_ours_line(o: CastlingOutcome) -> Option<Seq<char>> {
    if o.spec_ours_lost_castling() && abs(o.ours_trapped_rook_post_mg as int)
        >= TRAPPED_ROOK_NARRATE_THRESHOLD_MG {
        Some(ours_text())
    } else {
        None
    }
}

pub open spec fn spec_theirs_line(o: CastlingOutcome) -> Option<Seq<char>> {
    if o.spec_theirs_lost_castling() && abs(o.theirs_trapped_rook_post_mg as int)
        >= TRAPPED_ROOK_NARRATE_THRESHOLD_MG {
        Some(theirs_text())
    } else {
        None
    }
}

/// `|x| < limit`, for a positive limit.
fn below(x: i32, limit: i32) -> (r: bool)
    requires
        limit > 0,
    ensures
        r == (abs(x as int) < limit),
{
    -limit < x && x < limit
}

/// Our castling-loss line.
pub fn ours_line(outcome: &CastlingOutcome) -> (r: Option<&'static str>)
    ensures
        match r {
            Some(l) => spec_ours_line(*outcome) == Some(l@),
            None => spec_ours_line(*outcome) is None,
        },
{
    if !outcome.ours_lost_castling() {
        return None;
    }
    if below(outcome.ours_trapped_rook_post_mg, TRAPPED_ROOK_NARRATE_THRESHOLD_MG) {
        return None;
    }
    Some(
        "You forfeited castling: a rook is locked in by your king with no way to free it — the trapped-rook penalty just doubled.",
    )
}

/// The opponent's castling-loss line.
pub fn theirs_line(outcome: &CastlingOutcome) -> (r: Option<&'static str>)
    ensures
        match r {
            Some(l) => spec_theirs_line(*outcome) == Some(l@),
            None => spec_theirs_line(*outcome) is None,
        },
{
    if !outcome.theirs_lost_castling() {
        return None;
    }
    if below(outcome.theirs_trapped_rook_post_mg, TRAPPED_ROOK_NARRATE_THRESHOLD_MG) {
        return None;
    }
    Some(
        "You stripped the opponent of castling: a rook of theirs is locked in by their king with no way out.",
    )
}

/// The castling lines, ours then theirs, each indented on its own line;
/// empty when neither fires.
pub fn render_castling(outcome: &CastlingOutcome) -> (r: String)
    ensures
        r@ == opt_line(spec_ours_line(*outcome)) + opt_line(spec_theirs_line(*outcome)),
{
    let mut out = String::new();
    match ours_line(outcome) {
        Some(line) => push_indented(&mut out, line),
        None => {},
    }
    match theirs_line(outcome) {
        Some(line) => push_indented(&mut out, line),
        None => {},
    }
    assert(out@ =~= opt_line(spec_ours_line(*outcome)) + opt_line(spec_theirs_line(*outcome)));
    out
}

} // verus!
