//! Pieces of the move-analysis report that do not need the engine: the
//! suffix that says where a principal variation's material settles.

use vstd::prelude::*;

use crate::text::{decimal, push_decimal, push_str};

verus! {

/// `(settles leaf)` when the settled ply is the last of a line of
/// `pv_len` plies, `(settles ply N)` (1-based) otherwise; empty for an
/// empty line or when no settled ply is reported.
pub open spec fn settled_suffix_text(pv_len: usize, settled: Option<usize>) -> Seq<char> {
    match settled {
        None => Seq::empty(),
        Some(i) => if pv_len == 0 {
            Seq::empty()
        } else if i + 1 == pv_len {
            "(settles leaf)"@
        } else {
            "(settles ply "@ + decimal((i + 1) as nat) + ")"@
        },
    }
}

/// The settled-ply suffix of a line of `pv_len` plies.
pub fn format_settled_suffix(pv_len: usize, settled: Option<usize>) -> (r: String)
    requires
        settled matches Some(i) ==> i < usize::MAX,
    ensures
        r@ == settled_suffix_text(pv_len, settled),
{
    let mut out = String::new();
    match settled {
        None => {},
        Some(i) => {
            if pv_len == 0 {
            } else if i + 1 == pv_len {
                push_str(&mut out, "(settles leaf)");
            } else {
                push_str(&mut out, "(settles ply ");
                push_decimal(&mut out, (i + 1) as u64);
                push_str(&mut out, ")");
            }
        },
    }
    proof {
        assert(out@ =~= settled_suffix_text(pv_len, settled));
    }
    out
}

} // verus!
