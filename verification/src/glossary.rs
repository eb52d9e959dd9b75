//! One-line descriptions of the evaluation terms. Each gloss reads as if
//! the term's net value were positive: it says what a positive number
//! indicates and whose side it favours ("WE"/"OUR" for the side the
//! number is computed for, "THEY"/"THEIR" for the opponent), so a reader
//! of an evaluation trace need not work out the sign convention.

use vstd::prelude::*;

verus! {

/// A term of the engine's evaluation trace.
#[derive(Debug, Clone, Copy, PartialEq, Eq, Structural)]
pub enum TermId {
    MaterialPieceValue,
    MaterialPsqPositional,
    Imbalance,
    Initiative,
    Space,
    KingPawnShield,
    KingPawnStorm,
    KingPawnDistance,
    KingDanger,
    KingPawnlessFlank,
    KingFlankAttacks,
    PassedRankBonus,
    PassedKingProximity,
    PassedFreeAdvance,
    PassedStopperPenalty,
    PawnsConnected,
    PawnsIsolated,
    PawnsBackward,
    PawnsDoubled,
    PawnsWeakUnopposed,
    PawnsWeakLever,
    PiecesOutposts,
    PiecesReachableOutposts,
    PiecesMinorBehindPawn,
    PiecesKingProtector,
    PiecesBishopPawns,
    PiecesLongDiagonalBishop,
    PiecesRookOnQueenFile,
    PiecesRookOnOpenFile,
    PiecesRookOnSemiopenFile,
    PiecesTrappedRook,
    PiecesWeakQueen,
    MobilityKnight,
    MobilityBishop,
    MobilityRook,
    MobilityQueen,
    ThreatsByMinor,
    ThreatsByRook,
    ThreatsByKing,
    ThreatsHanging,
    ThreatsRestricted,
    ThreatsBySafePawn,
    ThreatsByPawnPush,
    ThreatsKnightOnQueen,
    ThreatsSliderOnQueen,
}

/// `w` occurs in `s` as a run of consecutive characters.
pub open spec fn occurs_in(s: Seq<char>, w: Seq<char>) -> bool {
    exists|i: int| 0 <= i && i + w.len() <= s.len() && #[trigger] s.subrange(i, i + w.len()) == w
}

/// The text says whose side a positive value favours.
pub open spec fn has_direction_marker(s: Seq<char>) -> bool {
    ||| occurs_in(s, "WE"@)
    ||| occurs_in(s, "THEY"@)
    ||| occurs_in(s, "THEIR"@)
    ||| occurs_in(s, "OUR"@)
}

/// The gloss of an evaluation term.
pub open spec fn gloss(id: TermId) -> Seq<char> {
    match id {
        TermId::MaterialPieceValue => "Raw piece-count material. Positive = WE have more material (queens, rooks, minors, pawns)."@,
        TermId::MaterialPsqPositional => "Piece-square-table bonus: are our pieces on their textbook-good squares? Positive = WE are."@,
        TermId::Imbalance => "Bonus for owning a pair (two bishops) or having favourable piece-vs-piece trade-offs. Positive = WE benefit."@,
        TermId::Initiative => "Late-game tempo bonus that tilts who-moves-first into the score (SF11 keeps the eval honest at depth)."@,
        TermId::Space => "Squares we control on our half of the board, weighted by how many minor pieces are still on. Positive = WE control more."@,
        TermId::KingPawnShield => "Friendly pawns directly in front of our castled king. Positive = OUR shield is stronger than theirs."@,
        TermId::KingPawnStorm => "Enemy pawn advances aimed at our king's shelter. Positive = THEIR storm against us is less severe than ours against them."@,
        TermId::KingPawnDistance => "How far our king is from its nearest pawn (matters in the endgame). Positive = OUR king is closer."@,
        TermId::KingDanger => "Pressure WE apply to the enemy king (attacker count near king, weak shield squares, no defenders). Positive = WE are attacking more than they are."@,
        TermId::KingPawnlessFlank => "Penalty when our king's flank has no pawns at all. Positive = THEIR king is more exposed than ours."@,
        TermId::KingFlankAttacks => "Number of OUR attacks on squares near the enemy king's flank. Positive = WE are attacking near their king."@,
        TermId::PassedRankBonus => "Bonus per OUR passed pawn, scaling with how far advanced it is. Positive = OUR passers are more dangerous."@,
        TermId::PassedKingProximity => "Endgame term: how close each king is to OUR passers vs theirs. Positive = WE win the king race."@,
        TermId::PassedFreeAdvance => "Bonus when nothing blocks or attacks the square in front of OUR passer. Positive = OUR passers have clearer paths."@,
        TermId::PassedStopperPenalty => "Penalty when an enemy piece sits on or attacks OUR passer's path. Positive = THEIR passers are blockaded more than ours."@,
        TermId::PawnsConnected => "Bonus for OUR pawns defending each other in chains. Positive = OUR chains are stronger."@,
        TermId::PawnsIsolated => "Penalty for OUR pawns with no friendly pawn on adjacent files. Positive = THEY have more isolated pawns than we do."@,
        TermId::PawnsBackward => "Penalty for OUR pawns that can't safely advance and aren't defended by another pawn. Positive = THEY have more backward pawns."@,
        TermId::PawnsDoubled => "Penalty for OUR pawns on the same file. Positive = THEY have more doubled pawns."@,
        TermId::PawnsWeakUnopposed => "Extra penalty for OUR weak pawns on half-open files (no enemy pawn opposing them). Positive = THEIRS are weaker."@,
        TermId::PawnsWeakLever => "Penalty for OUR pawns attacked by enemy pawns. Positive = THEIR pawns are under more pawn pressure than ours."@,
        TermId::PiecesOutposts => "Bonus for OUR minor pieces sitting on a defended outpost (safe square no enemy pawn can chase). Positive = WE have more outposted minors."@,
        TermId::PiecesReachableOutposts => "Bonus for OUR minor pieces that could reach an outpost next move. Positive = WE have better outpost potential."@,
        TermId::PiecesMinorBehindPawn => "Bonus for OUR minors sheltering behind a friendly pawn. Positive = WE have safer minors."@,
        TermId::PiecesKingProtector => "Per-piece bonus scaling with how close it sits to OUR king. Positive = OUR king has more defenders nearby."@,
        TermId::PiecesBishopPawns => "Penalty when OUR bishop is hemmed in by friendly pawns of its own color. Positive = THEIR bishop is more hemmed in than ours."@,
        TermId::PiecesLongDiagonalBishop => "Bonus when OUR bishop commands the long diagonal uncontested. Positive = WE control more long diagonals."@,
        TermId::PiecesRookOnQueenFile => "Bonus for OUR rook on the enemy queen's file. Positive = WE have rook-vs-queen file pressure."@,
        TermId::PiecesRookOnOpenFile => "Bonus for OUR rooks on fully open files. Positive = WE control more open files."@,
        TermId::PiecesRookOnSemiopenFile => "Bonus for OUR rooks on semi-open files (own pawn gone, theirs still there). Positive = WE pressure more weak pawns."@,
        TermId::PiecesTrappedRook => "Penalty when OUR rook can only move along 1–2 squares because OUR king blocks it after losing castling. Positive = THEIR rook is trapped more than ours."@,
        TermId::PiecesWeakQueen => "Penalty when OUR queen is attacked through a discovered-attack ray. Positive = THEIR queen is under more X-ray pressure than ours."@,
        TermId::MobilityKnight => "Net knight mobility advantage, weighted by SF11's per-square table. Positive = OUR knights have more good squares."@,
        TermId::MobilityBishop => "Net bishop mobility advantage. Positive = OUR bishops are more active."@,
        TermId::MobilityRook => "Net rook mobility advantage. Positive = OUR rooks are more active."@,
        TermId::MobilityQueen => "Net queen mobility advantage. Positive = OUR queen is more active."@,
        TermId::ThreatsByMinor => "Material at risk to OUR minor-piece attacks on enemy pieces (net of defenders). Positive = WE threaten more material."@,
        TermId::ThreatsByRook => "Material at risk to OUR rook attacks on enemy pieces. Positive = WE threaten more."@,
        TermId::ThreatsByKing => "OUR king joining the attack (endgame). Positive = OUR king is more active in the assault."@,
        TermId::ThreatsHanging => "Penalty for OUR pieces attacked more times than defended. Positive = THEIR pieces are hanging more than ours."@,
        TermId::ThreatsRestricted => "Bonus when OUR pieces restrict the enemy's piece mobility. Positive = WE cramp them more than they cramp us."@,
        TermId::ThreatsBySafePawn => "Bonus when OUR pawns attack enemy pieces from a square the enemy can't safely capture on. Positive = WE have more safe-pawn threats."@,
        TermId::ThreatsByPawnPush => "Bonus when pushing one of OUR pawns one square would attack an enemy piece. Positive = WE have more pawn-push threats."@,
        TermId::ThreatsKnightOnQueen => "Bonus when OUR knight is one move from attacking the enemy queen. Positive = WE pressure their queen more."@,
        TermId::ThreatsSliderOnQueen => "Bonus when OUR rook/bishop sees the enemy queen through one blocker (a discovered-attack / pin pre-cursor). Positive = WE have more X-ray pressure on their queen."@,
    }
}

/// One-line gloss for an evaluation term.
pub fn description(id: TermId) -> (r: &'static str)
    ensures
        r@ == gloss(id),
{
    match id {
        TermId::MaterialPieceValue => "Raw piece-count material. Positive = WE have more material (queens, rooks, minors, pawns).",
        TermId::MaterialPsqPositional => "Piece-square-table bonus: are our pieces on their textbook-good squares? Positive = WE are.",
        TermId::Imbalance => "Bonus for owning a pair (two bishops) or having favourable piece-vs-piece trade-offs. Positive = WE benefit.",
        TermId::Initiative => "Late-game tempo bonus that tilts who-moves-first into the score (SF11 keeps the eval honest at depth).",
        TermId::Space => "Squares we control on our half of the board, weighted by how many minor pieces are still on. Positive = WE control more.",
        TermId::KingPawnShield => "Friendly pawns directly in front of our castled king. Positive = OUR shield is stronger than theirs.",
        TermId::KingPawnStorm => "Enemy pawn advances aimed at our king's shelter. Positive = THEIR storm against us is less severe than ours against them.",
        TermId::KingPawnDistance => "How far our king is from its nearest pawn (matters in the endgame). Positive = OUR king is closer.",
        TermId::KingDanger => "Pressure WE apply to the enemy king (attacker count near king, weak shield squares, no defenders). Positive = WE are attacking more than they are.",
        TermId::KingPawnlessFlank => "Penalty when our king's flank has no pawns at all. Positive = THEIR king is more exposed than ours.",
        TermId::KingFlankAttacks => "Number of OUR attacks on squares near the enemy king's flank. Positive = WE are attacking near their king.",
        TermId::PassedRankBonus => "Bonus per OUR passed pawn, scaling with how far advanced it is. Positive = OUR passers are more dangerous.",
        TermId::PassedKingProximity => "Endgame term: how close each king is to OUR passers vs theirs. Positive = WE win the king race.",
        TermId::PassedFreeAdvance => "Bonus when nothing blocks or attacks the square in front of OUR passer. Positive = OUR passers have clearer paths.",
        TermId::PassedStopperPenalty => "Penalty when an enemy piece sits on or attacks OUR passer's path. Positive = THEIR passers are blockaded more than ours.",
        TermId::PawnsConnected => "Bonus for OUR pawns defending each other in chains. Positive = OUR chains are stronger.",
        TermId::PawnsIsolated => "Penalty for OUR pawns with no friendly pawn on adjacent files. Positive = THEY have more isolated pawns than we do.",
        TermId::PawnsBackward => "Penalty for OUR pawns that can't safely advance and aren't defended by another pawn. Positive = THEY have more backward pawns.",
        TermId::PawnsDoubled => "Penalty for OUR pawns on the same file. Positive = THEY have more doubled pawns.",
        TermId::PawnsWeakUnopposed => "Extra penalty for OUR weak pawns on half-open files (no enemy pawn opposing them). Positive = THEIRS are weaker.",
        TermId::PawnsWeakLever => "Penalty for OUR pawns attacked by enemy pawns. Positive = THEIR pawns are under more pawn pressure than ours.",
        TermId::PiecesOutposts => "Bonus for OUR minor pieces sitting on a defended outpost (safe square no enemy pawn can chase). Positive = WE have more outposted minors.",
        TermId::PiecesReachableOutposts => "Bonus for OUR minor pieces that could reach an outpost next move. Positive = WE have better outpost potential.",
        TermId::PiecesMinorBehindPawn => "Bonus for OUR minors sheltering behind a friendly pawn. Positive = WE have safer minors.",
        TermId::PiecesKingProtector => "Per-piece bonus scaling with how close it sits to OUR king. Positive = OUR king has more defenders nearby.",
        TermId::PiecesBishopPawns => "Penalty when OUR bishop is hemmed in by friendly pawns of its own color. Positive = THEIR bishop is more hemmed in than ours.",
        TermId::PiecesLongDiagonalBishop => "Bonus when OUR bishop commands the long diagonal uncontested. Positive = WE control more long diagonals.",
        TermId::PiecesRookOnQueenFile => "Bonus for OUR rook on the enemy queen's file. Positive = WE have rook-vs-queen file pressure.",
        TermId::PiecesRookOnOpenFile => "Bonus for OUR rooks on fully open files. Positive = WE control more open files.",
        TermId::PiecesRookOnSemiopenFile => "Bonus for OUR rooks on semi-open files (own pawn gone, theirs still there). Positive = WE pressure more weak pawns.",
        TermId::PiecesTrappedRook => "Penalty when OUR rook can only move along 1–2 squares because OUR king blocks it after losing castling. Positive = THEIR rook is trapped more than ours.",
        TermId::PiecesWeakQueen => "Penalty when OUR queen is attacked through a discovered-attack ray. Positive = THEIR queen is under more X-ray pressure than ours.",
        TermId::MobilityKnight => "Net knight mobility advantage, weighted by SF11's per-square table. Positive = OUR knights have more good squares.",
        TermId::MobilityBishop => "Net bishop mobility advantage. Positive = OUR bishops are more active.",
        TermId::MobilityRook => "Net rook mobility advantage. Positive = OUR rooks are more active.",
        TermId::MobilityQueen => "Net queen mobility advantage. Positive = OUR queen is more active.",
        TermId::ThreatsByMinor => "Material at risk to OUR minor-piece attacks on enemy pieces (net of defenders). Positive = WE threaten more material.",
        TermId::ThreatsByRook => "Material at risk to OUR rook attacks on enemy pieces. Positive = WE threaten more.",
        TermId::ThreatsByKing => "OUR king joining the attack (endgame). Positive = OUR king is more active in the assault.",
        TermId::ThreatsHanging => "Penalty for OUR pieces attacked more times than defended. Positive = THEIR pieces are hanging more than ours.",
        TermId::ThreatsRestricted => "Bonus when OUR pieces restrict the enemy's piece mobility. Positive = WE cramp them more than they cramp us.",
        TermId::ThreatsBySafePawn => "Bonus when OUR pawns attack enemy pieces from a square the enemy can't safely capture on. Positive = WE have more safe-pawn threats.",
        TermId::ThreatsByPawnPush => "Bonus when pushing one of OUR pawns one square would attack an enemy piece. Positive = WE have more pawn-push threats.",
        TermId::ThreatsKnightOnQueen => "Bonus when OUR knight is one move from attacking the enemy queen. Positive = WE pressure their queen more.",
        TermId::ThreatsSliderOnQueen => "Bonus when OUR rook/bishop sees the enemy queen through one blocker (a discovered-attack / pin pre-cursor). Positive = WE have more X-ray pressure on their queen.",
    }
}

/// Every gloss is longer than a short phrase, and every one but the
/// initiative term's (which favours neither side: a positive value means
/// the side to move gains a tempo) says whose side a positive value
/// favours.
pub proof fn law_gloss_direction(id: TermId)
    ensures
        gloss(id).len() > 30,
        id != TermId::Initiative ==> has_direction_marker(gloss(id)),
{
    match id {
        TermId::MaterialPieceValue => {
            reveal_strlit("Raw piece-count material. Positive = WE have more material (queens, rooks, minors, pawns).");
            reveal_strlit("WE");
            assert(gloss(id).subrange(37int, 37int + "WE"@.len()) =~= "WE"@);
        },
        TermId::MaterialPsqPositional => {
            reveal_strlit("Piece-square-table bonus: are our pieces on their textbook-good squares? Positive = WE are.");
            reveal_strlit("WE");
            assert(gloss(id).subrange(84int, 84int + "WE"@.len()) =~= "WE"@);
        },
        TermId::Imbalance => {
            reveal_strlit("Bonus for owning a pair (two bishops) or having favourable piece-vs-piece trade-offs. Positive = WE benefit.");
            reveal_strlit("WE");
            assert(gloss(id).subrange(97int, 97int + "WE"@.len()) =~= "WE"@);
        },
        TermId::Initiative => {
            reveal_strlit("Late-game tempo bonus that tilts who-moves-first into the score (SF11 keeps the eval honest at depth).");
        },
        TermId::Space => {
            reveal_strlit("Squares we control on our half of the board, weighted by how many minor pieces are still on. Positive = WE control more.");
            reveal_strlit("WE");
            assert(gloss(id).subrange(104int, 104int + "WE"@.len()) =~= "WE"@);
        },
        TermId::KingPawnShield => {
            reveal_strlit("Friendly pawns directly in front of our castled king. Positive = OUR shield is stronger than theirs.");
            reveal_strlit("OUR");
            assert(gloss(id).subrange(65int, 65int + "OUR"@.len()) =~= "OUR"@);
        },
        TermId::KingPawnStorm => {
            reveal_strlit("Enemy pawn advances aimed at our king's shelter. Positive = THEIR storm against us is less severe than ours against them.");
            reveal_strlit("THEIR");
            assert(gloss(id).subrange(60int, 60int + "THEIR"@.len()) =~= "THEIR"@);
        },
        TermId::KingPawnDistance => {
            reveal_strlit("How far our king is from its nearest pawn (matters in the endgame). Positive = OUR king is closer.");
            reveal_strlit("OUR");
            assert(gloss(id).subrange(79int, 79int + "OUR"@.len()) =~= "OUR"@);
        },
        TermId::KingDanger => {
            reveal_strlit("Pressure WE apply to the enemy king (attacker count near king, weak shield squares, no defenders). Positive = WE are attacking more than they are.");
            reveal_strlit("WE");
            assert(gloss(id).subrange(9int, 9int + "WE"@.len()) =~= "WE"@);
        },
        TermId::KingPawnlessFlank => {
            reveal_strlit("Penalty when our king's flank has no pawns at all. Positive = THEIR king is more exposed than ours.");
            reveal_strlit("THEIR");
            assert(gloss(id).subrange(62int, 62int + "THEIR"@.len()) =~= "THEIR"@);
        },
        TermId::KingFlankAttacks => {
            reveal_strlit("Number of OUR attacks on squares near the enemy king's flank. Positive = WE are attacking near their king.");
            reveal_strlit("OUR");
            assert(gloss(id).subrange(10int, 10int + "OUR"@.len()) =~= "OUR"@);
        },
        TermId::PassedRankBonus => {
            reveal_strlit("Bonus per OUR passed pawn, scaling with how far advanced it is. Positive = OUR passers are more dangerous.");
            reveal_strlit("OUR");
            assert(gloss(id).subrange(10int, 10int + "OUR"@.len()) =~= "OUR"@);
        },
        TermId::PassedKingProximity => {
            reveal_strlit("Endgame term: how close each king is to OUR passers vs theirs. Positive = WE win the king race.");
            reveal_strlit("OUR");
            assert(gloss(id).subrange(40int, 40int + "OUR"@.len()) =~= "OUR"@);
        },
        TermId::PassedFreeAdvance => {
            reveal_strlit("Bonus when nothing blocks or attacks the square in front of OUR passer. Positive = OUR passers have clearer paths.");
            reveal_strlit("OUR");
            assert(gloss(id).subrange(60int, 60int + "OUR"@.len()) =~= "OUR"@);
        },
        TermId::PassedStopperPenalty => {
            reveal_strlit("Penalty when an enemy piece sits on or attacks OUR passer's path. Positive = THEIR passers are blockaded more than ours.");
            reveal_strlit("OUR");
            assert(gloss(id).subrange(47int, 47int + "OUR"@.len()) =~= "OUR"@);
        },
        TermId::PawnsConnected => {
            reveal_strlit("Bonus for OUR pawns defending each other in chains. Positive = OUR chains are stronger.");
            reveal_strlit("OUR");
            assert(gloss(id).subrange(10int, 10int + "OUR"@.len()) =~= "OUR"@);
        },
        TermId::PawnsIsolated => {
            reveal_strlit("Penalty for OUR pawns with no friendly pawn on adjacent files. Positive = THEY have more isolated pawns than we do.");
            reveal_strlit("OUR");
            assert(gloss(id).subrange(12int, 12int + "OUR"@.len()) =~= "OUR"@);
        },
        TermId::PawnsBackward => {
            reveal_strlit("Penalty for OUR pawns that can't safely advance and aren't defended by another pawn. Positive = THEY have more backward pawns.");
            reveal_strlit("OUR");
            assert(gloss(id).subrange(12int, 12int + "OUR"@.len()) =~= "OUR"@);
        },
        TermId::PawnsDoubled => {
            reveal_strlit("Penalty for OUR pawns on the same file. Positive = THEY have more doubled pawns.");
            reveal_strlit("OUR");
            assert(gloss(id).subrange(12int, 12int + "OUR"@.len()) =~= "OUR"@);
        },
        TermId::PawnsWeakUnopposed => {
            reveal_strlit("Extra penalty for OUR weak pawns on half-open files (no enemy pawn opposing them). Positive = THEIRS are weaker.");
            reveal_strlit("OUR");
            assert(gloss(id).subrange(18int, 18int + "OUR"@.len()) =~= "OUR"@);
        },
        TermId::PawnsWeakLever => {
            reveal_strlit("Penalty for OUR pawns attacked by enemy pawns. Positive = THEIR pawns are under more pawn pressure than ours.");
            reveal_strlit("OUR");
            assert(gloss(id).subrange(12int, 12int + "OUR"@.len()) =~= "OUR"@);
        },
        TermId::PiecesOutposts => {
            reveal_strlit("Bonus for OUR minor pieces sitting on a defended outpost (safe square no enemy pawn can chase). Positive = WE have more outposted minors.");
            reveal_strlit("OUR");
            assert(gloss(id).subrange(10int, 10int + "OUR"@.len()) =~= "OUR"@);
        },
        TermId::PiecesReachableOutposts => {
            reveal_strlit("Bonus for OUR minor pieces that could reach an outpost next move. Positive = WE have better outpost potential.");
            reveal_strlit("OUR");
            assert(gloss(id).subrange(10int, 10int + "OUR"@.len()) =~= "OUR"@);
        },
        TermId::PiecesMinorBehindPawn => {
            reveal_strlit("Bonus for OUR minors sheltering behind a friendly pawn. Positive = WE have safer minors.");
            reveal_strlit("OUR");
            assert(gloss(id).subrange(10int, 10int + "OUR"@.len()) =~= "OUR"@);
        },
        TermId::PiecesKingProtector => {
            reveal_strlit("Per-piece bonus scaling with how close it sits to OUR king. Positive = OUR king has more defenders nearby.");
            reveal_strlit("OUR");
            assert(gloss(id).subrange(50int, 50int + "OUR"@.len()) =~= "OUR"@);
        },
        TermId::PiecesBishopPawns => {
            reveal_strlit("Penalty when OUR bishop is hemmed in by friendly pawns of its own color. Positive = THEIR bishop is more hemmed in than ours.");
            reveal_strlit("OUR");
            assert(gloss(id).subrange(13int, 13int + "OUR"@.len()) =~= "OUR"@);
        },
        TermId::PiecesLongDiagonalBishop => {
            reveal_strlit("Bonus when OUR bishop commands the long diagonal uncontested. Positive = WE control more long diagonals.");
            reveal_strlit("OUR");
            assert(gloss(id).subrange(11int, 11int + "OUR"@.len()) =~= "OUR"@);
        },
        TermId::PiecesRookOnQueenFile => {
            reveal_strlit("Bonus for OUR rook on the enemy queen's file. Positive = WE have rook-vs-queen file pressure.");
            reveal_strlit("OUR");
            assert(gloss(id).subrange(10int, 10int + "OUR"@.len()) =~= "OUR"@);
        },
        TermId::PiecesRookOnOpenFile => {
            reveal_strlit("Bonus for OUR rooks on fully open files. Positive = WE control more open files.");
            reveal_strlit("OUR");
            assert(gloss(id).subrange(10int, 10int + "OUR"@.len()) =~= "OUR"@);
        },
        TermId::PiecesRookOnSemiopenFile => {
            reveal_strlit("Bonus for OUR rooks on semi-open files (own pawn gone, theirs still there). Positive = WE pressure more weak pawns.");
            reveal_strlit("OUR");
            assert(gloss(id).subrange(10int, 10int + "OUR"@.len()) =~= "OUR"@);
        },
        TermId::PiecesTrappedRook => {
            reveal_strlit("Penalty when OUR rook can only move along 1–2 squares because OUR king blocks it after losing castling. Positive = THEIR rook is trapped more than ours.");
            reveal_strlit("OUR");
            assert(gloss(id).subrange(13int, 13int + "OUR"@.len()) =~= "OUR"@);
        },
        TermId::PiecesWeakQueen => {
            reveal_strlit("Penalty when OUR queen is attacked through a discovered-attack ray. Positive = THEIR queen is under more X-ray pressure than ours.");
            reveal_strlit("OUR");
            assert(gloss(id).subrange(13int, 13int + "OUR"@.len()) =~= "OUR"@);
        },
        TermId::MobilityKnight => {
            reveal_strlit("Net knight mobility advantage, weighted by SF11's per-square table. Positive = OUR knights have more good squares.");
            reveal_strlit("OUR");
            assert(gloss(id).subrange(79int, 79int + "OUR"@.len()) =~= "OUR"@);
        },
        TermId::MobilityBishop => {
            reveal_strlit("Net bishop mobility advantage. Positive = OUR bishops are more active.");
            reveal_strlit("OUR");
            assert(gloss(id).subrange(42int, 42int + "OUR"@.len()) =~= "OUR"@);
        },
        TermId::MobilityRook => {
            reveal_strlit("Net rook mobility advantage. Positive = OUR rooks are more active.");
            reveal_strlit("OUR");
            assert(gloss(id).subrange(40int, 40int + "OUR"@.len()) =~= "OUR"@);
        },
        TermId::MobilityQueen => {
            reveal_strlit("Net queen mobility advantage. Positive = OUR queen is more active.");
            reveal_strlit("OUR");
            assert(gloss(id).subrange(41int, 41int + "OUR"@.len()) =~= "OUR"@);
        },
        TermId::ThreatsByMinor => {
            reveal_strlit("Material at risk to OUR minor-piece attacks on enemy pieces (net of defenders). Positive = WE threaten more material.");
            reveal_strlit("OUR");
            assert(gloss(id).subrange(20int, 20int + "OUR"@.len()) =~= "OUR"@);
        },
        TermId::ThreatsByRook => {
            reveal_strlit("Material at risk to OUR rook attacks on enemy pieces. Positive = WE threaten more.");
            reveal_strlit("OUR");
            assert(gloss(id).subrange(20int, 20int + "OUR"@.len()) =~= "OUR"@);
        },
        TermId::ThreatsByKing => {
            reveal_strlit("OUR king joining the attack (endgame). Positive = OUR king is more active in the assault.");
            reveal_strlit("OUR");
            assert(gloss(id).subrange(0int, 0int + "OUR"@.len()) =~= "OUR"@);
        },
        TermId::ThreatsHanging => {
            reveal_strlit("Penalty for OUR pieces attacked more times than defended. Positive = THEIR pieces are hanging more than ours.");
            reveal_strlit("OUR");
            assert(gloss(id).subrange(12int, 12int + "OUR"@.len()) =~= "OUR"@);
        },
        TermId::ThreatsRestricted => {
            reveal_strlit("Bonus when OUR pieces restrict the enemy's piece mobility. Positive = WE cramp them more than they cramp us.");
            reveal_strlit("OUR");
            assert(gloss(id).subrange(11int, 11int + "OUR"@.len()) =~= "OUR"@);
        },
        TermId::ThreatsBySafePawn => {
            reveal_strlit("Bonus when OUR pawns attack enemy pieces from a square the enemy can't safely capture on. Positive = WE have more safe-pawn threats.");
            reveal_strlit("OUR");
            assert(gloss(id).subrange(11int, 11int + "OUR"@.len()) =~= "OUR"@);
        },
        TermId::ThreatsByPawnPush => {
            reveal_strlit("Bonus when pushing one of OUR pawns one square would attack an enemy piece. Positive = WE have more pawn-push threats.");
            reveal_strlit("OUR");
            assert(gloss(id).subrange(26int, 26int + "OUR"@.len()) =~= "OUR"@);
        },
        TermId::ThreatsKnightOnQueen => {
            reveal_strlit("Bonus when OUR knight is one move from attacking the enemy queen. Positive = WE pressure their queen more.");
            reveal_strlit("OUR");
            assert(gloss(id).subrange(11int, 11int + "OUR"@.len()) =~= "OUR"@);
        },
        TermId::ThreatsSliderOnQueen => {
            reveal_strlit("Bonus when OUR rook/bishop sees the enemy queen through one blocker (a discovered-attack / pin pre-cursor). Positive = WE have more X-ray pressure on their queen.");
            reveal_strlit("OUR");
            assert(gloss(id).subrange(11int, 11int + "OUR"@.len()) =~= "OUR"@);
        },
    }
}

} // verus!
