//! Pieces of the search report that do not need the engine: the suffix
//! that says where a principal variation's material settles, the test for a
//! forced move that gave the advantage away, and the hint on judging a move
//! already played.

use vstd::prelude::*;

use crate::text::{decimal, push_decimal, push_str};

verus! {

/// `[settles leaf]` when the settled ply is the last of a line of
/// `pv_len` plies, `[settles ply N]` (1-based) otherwise; empty for an
/// empty line or when no settled ply is reported.
pub open spec fn settled_suffix_text(pv_len: usize, settled: Option<usize>) -> Seq<char> {
    match settled {
        None => Seq::empty(),
        Some(i) => if pv_len == 0 {
            Seq::empty()
        } else if i + 1 == pv_len {
            "[settles leaf]"@
        } else {
            "[settles ply "@ + decimal((i + 1) as nat) + "]"@
        },
    }
}

/// The settled-ply suffix of a line of `pv_len` plies.
pub fn format_settled_suffix(pv_len: usize, settled: Option<usize>) -> (r: String)
    requires
        settled matches Some(i) ==> i < usize::MAX,
    ensures
        r@ == settled_suffix_text(pv_len, settled),
{
    let mut out = String::new();
    match settled {
        None => {},
        Some(i) => {
            if pv_len == 0 {
            } else if i + 1 == pv_len {
                push_str(&mut out, "[settles leaf]");
            } else {
                push_str(&mut out, "[settles ply ");
                push_decimal(&mut out, (i + 1) as u64);
                push_str(&mut out, "]");
            }
        },
    }
    proof {
        assert(out@ =~= settled_suffix_text(pv_len, settled));
    }
    out
}

/// One conventional pawn on the engine's scale (its endgame pawn value).
pub const PAWN_EG_CP: i32 = 213;

/// A forced move gave the advantage away: it concedes more than a pawn
/// against the best move and leaves the mover less than a pawn up (scores
/// in engine centipawns, from the mover's side).
pub open spec fn gives_away(best: i32, forced: i32) -> bool {
    best - forced > PAWN_EG_CP && forced < PAWN_EG_CP
}

/// Whether the forced move gave the advantage away.
pub fn gave_away_advantage(best: i32, forced: i32) -> (r: bool)
    requires
        i32::MIN <= best - forced <= i32::MAX,
    ensures
        r == gives_away(best, forced),
{
    let conceded = best - forced;
    conceded > PAWN_EG_CP && forced < PAWN_EG_CP
}

/// The hint printed after a search of a position: to judge a move already
/// played, search the position before it with the move forced in.
pub open spec fn force_include_hint_text() -> Seq<char> {
    "hint:     judging a move you already played? run this on the position BEFORE\n"@ + "          it with `--force-include <your move>` — you'll get its eval swing\n"@ + "          vs. the best line and a flag if it gave away the advantage.\n"@ + "          (Searching the position AFTER the move shows only that the result\n"@ + "          is bad, not why your move was — and gives no swing to compare.)\n"@
}

/// The force-include hint.
pub fn force_include_hint() -> (r: String)
    ensures
        r@ == force_include_hint_text(),
{
    let mut out = String::new();
    push_str(&mut out, "hint:     judging a move you already played? run this on the position BEFORE\n");
    push_str(&mut out, "          it with `--force-include <your move>` — you'll get its eval swing\n");
    push_str(&mut out, "          vs. the best line and a flag if it gave away the advantage.\n");
    push_str(&mut out, "          (Searching the position AFTER the move shows only that the result\n");
    push_str(&mut out, "          is bad, not why your move was — and gives no swing to compare.)\n");
    proof {
        assert(out@ =~= force_include_hint_text());
    }
    out
}

} // verus!
