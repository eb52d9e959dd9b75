//! Template-based prose generator. Every sentence the user reads comes
//! from a registered template with typed slots; templates are ranked by
//! significance. No templates are registered yet, so no phrase comes out.

use vstd::prelude::*;

use crate::PositionAnalysis;

verus! {

/// A single piece of user-facing commentary, paired with the significance
/// score that orders it in the UI.
#[derive(Debug, Clone)]
pub struct Phrase {
    pub text: String,
    pub significance: u32,
}

/// Walks a [`PositionAnalysis`] and emits ranked [`Phrase`]s.
#[derive(Debug, Default)]
pub struct Explainer;

impl Explainer {
    pub fn new() -> (r: Explainer) {
        Explainer
    }

    /// Ordered phrases for one analysis: none while no template exists.
    pub fn explain(&self, analysis: &PositionAnalysis) -> (r: Vec<Phrase>)
        ensures
            r@.len() == 0,
    {
        Vec::new()
    }

    /// Paired "your move vs. best move" commentary: none while no template
    /// exists.
    pub fn compare(&self, your_move: &PositionAnalysis, best_move: &PositionAnalysis) -> (r: Vec<
        Phrase,
    >)
        ensures
            r@.len() == 0,
    {
        Vec::new()
    }
}

} // verus!
