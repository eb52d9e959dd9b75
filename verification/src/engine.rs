//! Cross-check engine abstraction: the analysis layer does the teaching,
//! an engine only confirms or flags disagreement.

use vstd::prelude::*;

use crate::error::Error;

verus! {

/// Implementors run a low-depth search on a FEN and return a top move plus
/// its evaluation.
pub trait CrossCheckEngine {
    fn best_move(&mut self, fen: &str, depth: u8) -> Result<EngineCheck, Error>;

    fn name(&self) -> &'static str;
}

#[derive(Debug, Clone)]
pub struct EngineCheck {
    pub engine: String,
    pub depth: u8,
    pub best_move_uci: String,
    pub eval_cp: Option<i32>,
    pub mate_in: Option<i32>,
    /// Whether the engine agrees with our top-ranked candidate.
    pub agrees_with_analysis: bool,
}

} // verus!
