//! Forcing-line search output: checks, captures and threats walked from a
//! position.

use vstd::prelude::*;

verus! {

#[derive(Debug, Clone, Default)]
pub struct ForcingLine {
    pub moves: Vec<String>,
    pub resulting_fen: String,
    /// Centipawn assessment of the leaf node, from White's perspective.
    pub leaf_eval_cp: Option<i32>,
    pub is_mate: bool,
}

} // verus!
