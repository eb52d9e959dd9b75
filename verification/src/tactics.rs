//! Tactical motifs found in a position.

use vstd::prelude::*;

verus! {

#[derive(Debug, Clone)]
pub struct TacticsReport {
    pub motifs: Vec<Motif>,
}

impl Default for TacticsReport {
    fn default() -> (r: TacticsReport)
        ensures
            r.motifs@.len() == 0,
    {
        TacticsReport { motifs: Vec::new() }
    }
}

#[derive(Debug, Clone)]
pub struct Motif {
    pub kind: MotifKind,
    /// Squares involved (attacker, victims, pivot piece), for the UI to
    /// highlight.
    pub squares: Vec<String>,
    /// Data for the explainer to pick a template; not user-facing prose.
    pub detail: Option<String>,
}

#[derive(Debug, Clone, Copy, PartialEq, Eq, Structural)]
pub enum MotifKind {
    Fork,
    AbsolutePin,
    RelativePin,
    Skewer,
    DiscoveredAttack,
    DoubleCheck,
    Deflection,
    Interference,
    Overloading,
    BackRankWeakness,
    SmotheredMatePattern,
    TrappedPiece,
    XRay,
}

} // verus!
