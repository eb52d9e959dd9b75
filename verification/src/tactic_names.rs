//! The tactic detector's vocabulary (patterns, mating patterns,
//! confidence levels, escapes, defusal mechanisms) and the words each is
//! printed with.

use vstd::prelude::*;

verus! {

/// The tactic patterns the detector names.
#[derive(Debug, Clone, Copy, PartialEq, Eq, Structural)]
pub enum TacticPattern {
    Fork,
    HangingCapture,
    RemovingDefender,
    TrappedPiece,
    Pin,
    RelativePin,
    Skewer,
    DiscoveredAttack,
    DiscoveredCheck,
    DoubleCheck,
    Sacrifice,
    Intermezzo,
    Deflection,
    Attraction,
    Interference,
    Clearance,
    XRay,
    AttackingF2F7,
    UnderPromotion,
    Checkmate,
}

/// The name a tactic pattern is printed under.
pub open spec fn pattern_text(x: TacticPattern) -> Seq<char> {
    match x {
        TacticPattern::Fork => "Fork"@,
        TacticPattern::HangingCapture => "HangingCapture"@,
        TacticPattern::RemovingDefender => "RemovingDefender"@,
        TacticPattern::TrappedPiece => "TrappedPiece"@,
        TacticPattern::Pin => "Pin"@,
        TacticPattern::RelativePin => "RelativePin"@,
        TacticPattern::Skewer => "Skewer"@,
        TacticPattern::DiscoveredAttack => "DiscoveredAttack"@,
        TacticPattern::DiscoveredCheck => "DiscoveredCheck"@,
        TacticPattern::DoubleCheck => "DoubleCheck"@,
        TacticPattern::Sacrifice => "Sacrifice"@,
        TacticPattern::Intermezzo => "Intermezzo"@,
        TacticPattern::Deflection => "Deflection"@,
        TacticPattern::Attraction => "Attraction"@,
        TacticPattern::Interference => "Interference"@,
        TacticPattern::Clearance => "Clearance"@,
        TacticPattern::XRay => "XRay"@,
        TacticPattern::AttackingF2F7 => "AttackingF2F7"@,
        TacticPattern::UnderPromotion => "UnderPromotion"@,
        TacticPattern::Checkmate => "Checkmate"@,
    }
}

/// The name a tactic pattern is printed under.
pub fn pattern_name(x: TacticPattern) -> (r: &'static str)
    ensures
        r@ == pattern_text(x),
{
    match x {
        TacticPattern::Fork => "Fork",
        TacticPattern::HangingCapture => "HangingCapture",
        TacticPattern::RemovingDefender => "RemovingDefender",
        TacticPattern::TrappedPiece => "TrappedPiece",
        TacticPattern::Pin => "Pin",
        TacticPattern::RelativePin => "RelativePin",
        TacticPattern::Skewer => "Skewer",
        TacticPattern::DiscoveredAttack => "DiscoveredAttack",
        TacticPattern::DiscoveredCheck => "DiscoveredCheck",
        TacticPattern::DoubleCheck => "DoubleCheck",
        TacticPattern::Sacrifice => "Sacrifice",
        TacticPattern::Intermezzo => "Intermezzo",
        TacticPattern::Deflection => "Deflection",
        TacticPattern::Attraction => "Attraction",
        TacticPattern::Interference => "Interference",
        TacticPattern::Clearance => "Clearance",
        TacticPattern::XRay => "XRay",
        TacticPattern::AttackingF2F7 => "AttackingF2F7",
        TacticPattern::UnderPromotion => "UnderPromotion",
        TacticPattern::Checkmate => "Checkmate",
    }
}

/// The named mating patterns.
#[derive(Debug, Clone, Copy, PartialEq, Eq, Structural)]
pub enum MatePattern {
    BackRank,
    Smothered,
    Anastasia,
    Hook,
    Arabian,
    Boden,
    DoubleBishop,
    Dovetail,
}

/// The name a mating pattern is printed under.
pub open spec fn mate_pattern_text(x: MatePattern) -> Seq<char> {
    match x {
        MatePattern::BackRank => "BackRank"@,
        MatePattern::Smothered => "Smothered"@,
        MatePattern::Anastasia => "Anastasia"@,
        MatePattern::Hook => "Hook"@,
        MatePattern::Arabian => "Arabian"@,
        MatePattern::Boden => "Boden"@,
        MatePattern::DoubleBishop => "DoubleBishop"@,
        MatePattern::Dovetail => "Dovetail"@,
    }
}

/// The name a mating pattern is printed under.
pub fn mate_pattern_name(x: MatePattern) -> (r: &'static str)
    ensures
        r@ == mate_pattern_text(x),
{
    match x {
        MatePattern::BackRank => "BackRank",
        MatePattern::Smothered => "Smothered",
        MatePattern::Anastasia => "Anastasia",
        MatePattern::Hook => "Hook",
        MatePattern::Arabian => "Arabian",
        MatePattern::Boden => "Boden",
        MatePattern::DoubleBishop => "DoubleBishop",
        MatePattern::Dovetail => "Dovetail",
    }
}

/// How sure the detector is of a tactic.
#[derive(Debug, Clone, Copy, PartialEq, Eq, Structural)]
pub enum Confidence {
    High,
    Medium,
}

/// The name a confidence level is printed under.
pub open spec fn confidence_text(x: Confidence) -> Seq<char> {
    match x {
        Confidence::High => "High"@,
        Confidence::Medium => "Medium"@,
    }
}

/// The name a confidence level is printed under.
pub fn confidence_name(x: Confidence) -> (r: &'static str)
    ensures
        r@ == confidence_text(x),
{
    match x {
        Confidence::High => "High",
        Confidence::Medium => "Medium",
    }
}

/// How the defender escapes a tactic.
#[derive(Debug, Clone, Copy, PartialEq, Eq, Structural)]
pub enum EscapeKind {
    ForcingCheck,
    Zwischenzug,
    DefendsBothTargets,
    AdequateRetreat,
    CounterAttack,
}

/// A self-contained phrase for an escape: the mechanism and why it denies the capture.
pub open spec fn escape_text(x: EscapeKind) -> Seq<char> {
    match x {
        EscapeKind::ForcingCheck => "a check — you must answer it first, so you never get the tempo to capture"@,
        EscapeKind::Zwischenzug => "an in-between capture that breaks the tactic before you can capture"@,
        EscapeKind::DefendsBothTargets => "one move that defends both targets at once"@,
        EscapeKind::AdequateRetreat => "the target simply steps to safety"@,
        EscapeKind::CounterAttack => "a counter-threat you must deal with first"@,
    }
}

/// A self-contained phrase for an escape: the mechanism and why it denies the capture.
pub fn escape_kind_str(x: EscapeKind) -> (r: &'static str)
    ensures
        r@ == escape_text(x),
{
    match x {
        EscapeKind::ForcingCheck => "a check — you must answer it first, so you never get the tempo to capture",
        EscapeKind::Zwischenzug => "an in-between capture that breaks the tactic before you can capture",
        EscapeKind::DefendsBothTargets => "one move that defends both targets at once",
        EscapeKind::AdequateRetreat => "the target simply steps to safety",
        EscapeKind::CounterAttack => "a counter-threat you must deal with first",
    }
}

/// How a defensive move defuses a threat.
#[derive(Debug, Clone, Copy, PartialEq, Eq, Structural)]
pub enum DefusalMechanism {
    CaptureDiscoverer,
    CaptureVehicle,
    Block,
    RelocateTarget,
    OverDefend,
}

/// The phrase for a defusal mechanism.
pub open spec fn mechanism_text(x: DefusalMechanism) -> Seq<char> {
    match x {
        DefusalMechanism::CaptureDiscoverer => "captures the discoverer"@,
        DefusalMechanism::CaptureVehicle => "captures the blocker"@,
        DefusalMechanism::Block => "blocks the firing line"@,
        DefusalMechanism::RelocateTarget => "moves the threatened piece to safety"@,
        DefusalMechanism::OverDefend => "defends the threatened piece"@,
    }
}

/// The phrase for a defusal mechanism.
pub fn mechanism_phrase(x: DefusalMechanism) -> (r: &'static str)
    ensures
        r@ == mechanism_text(x),
{
    match x {
        DefusalMechanism::CaptureDiscoverer => "captures the discoverer",
        DefusalMechanism::CaptureVehicle => "captures the blocker",
        DefusalMechanism::Block => "blocks the firing line",
        DefusalMechanism::RelocateTarget => "moves the threatened piece to safety",
        DefusalMechanism::OverDefend => "defends the threatened piece",
    }
}

} // verus!
