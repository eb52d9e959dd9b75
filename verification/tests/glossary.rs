use chess_tutor::glossary::{description, TermId};

const ALL: [TermId; 45] = [
    TermId::MaterialPieceValue,
    TermId::MaterialPsqPositional,
    TermId::Imbalance,
    TermId::Initiative,
    TermId::Space,
    TermId::KingPawnShield,
    TermId::KingPawnStorm,
    TermId::KingPawnDistance,
    TermId::KingDanger,
    TermId::KingPawnlessFlank,
    TermId::KingFlankAttacks,
    TermId::PassedRankBonus,
    TermId::PassedKingProximity,
    TermId::PassedFreeAdvance,
    TermId::PassedStopperPenalty,
    TermId::PawnsConnected,
    TermId::PawnsIsolated,
    TermId::PawnsBackward,
    TermId::PawnsDoubled,
    TermId::PawnsWeakUnopposed,
    TermId::PawnsWeakLever,
    TermId::PiecesOutposts,
    TermId::PiecesReachableOutposts,
    TermId::PiecesMinorBehindPawn,
    TermId::PiecesKingProtector,
    TermId::PiecesBishopPawns,
    TermId::PiecesLongDiagonalBishop,
    TermId::PiecesRookOnQueenFile,
    TermId::PiecesRookOnOpenFile,
    TermId::PiecesRookOnSemiopenFile,
    TermId::PiecesTrappedRook,
    TermId::PiecesWeakQueen,
    TermId::MobilityKnight,
    TermId::MobilityBishop,
    TermId::MobilityRook,
    TermId::MobilityQueen,
    TermId::ThreatsByMinor,
    TermId::ThreatsByRook,
    TermId::ThreatsByKing,
    TermId::ThreatsHanging,
    TermId::ThreatsRestricted,
    TermId::ThreatsBySafePawn,
    TermId::ThreatsByPawnPush,
    TermId::ThreatsKnightOnQueen,
    TermId::ThreatsSliderOnQueen,
];

#[test]
fn every_term_has_a_non_empty_description() {
    for &id in &ALL {
        let d = description(id);
        assert!(d.len() > 30, "description for {:?} is too short: {:?}", id, d);
    }
}

#[test]
fn descriptions_carry_a_directional_marker() {
    for &id in &ALL {
        let d = description(id);
        let has_marker = d.contains("WE")
            || d.contains("THEY")
            || d.contains("THEIR")
            || d.contains("OUR")
            || matches!(id, TermId::Initiative);
        assert!(has_marker, "{:?}: gloss missing directional marker: {:?}", id, d);
    }
}

#[test]
fn initiative_gloss_has_no_side() {
    let d = description(TermId::Initiative);
    assert!(!d.contains("WE") && !d.contains("OUR") && !d.contains("THEY"));
    assert!(d.starts_with("Late-game tempo bonus"));
}

#[test]
fn king_danger_gloss_reads_as_our_pressure() {
    assert_eq!(
        description(TermId::KingDanger),
        "Pressure WE apply to the enemy king (attacker count near king, weak shield squares, no defenders). Positive = WE are attacking more than they are."
    );
}
