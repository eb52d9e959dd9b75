//! Square-level analysis: attacker/defender maps and candidate moves.

use vstd::prelude::*;

use crate::bitboard::{
    bishop_attack_set, bishop_attacks, count_from, king_attack_set, king_attacks,
    knight_attack_set, knight_attacks, pawn_attack_set, pawn_attacks, popcount, rook_attack_set,
    rook_attacks, square_count,
};
use crate::position::{Board, Color, Position, Role};

verus! {

/// Per-square attacker/defender data for the current position: 64 entries
/// indexed by square (a1 = 0 .. h8 = 63).
#[derive(Debug, Clone)]
pub struct SquareData {
    pub squares: Vec<SquareReport>,
}

#[derive(Debug, Clone, Copy, Default, PartialEq, Eq)]
pub struct SquareReport {
    pub white_attackers: u8,
    pub black_attackers: u8,
    /// SEE value for capturing on this square with the side to move; not
    /// filled in by the attack map.
    pub see: Option<i32>,
}

impl Default for SquareData {
    /// The empty report.
    fn default() -> (r: SquareData)
        ensures
            r.squares@.len() == 0,
    {
        SquareData { squares: Vec::new() }
    }
}

/// Pieces of `color` attacking `target` under the occupancy `occupied`.
/// Pawns of a colour attack `target` exactly when a pawn of the other colour
/// standing on `target` would attack them.
pub open spec fn spec_attackers_of(b: Board, target: int, color: Color, occupied: u64) -> u64 {
    let by_color = b.spec_by_color(color);
    (pawn_attack_set(color == Color::Black, target) & b.pawns & by_color) | (knight_attack_set(
        target,
    ) & b.knights & by_color) | (bishop_attack_set(target, occupied) & (b.bishops | b.queens)
        & by_color) | (rook_attack_set(target, occupied) & (b.rooks | b.queens) & by_color) | (
    king_attack_set(target) & b.kings & by_color)
}

/// All pieces of `color` that attack `target`, given the occupancy.
pub fn attackers_of(board: &Board, target: u8, color: Color, occupied: u64) -> (r: u64)
    requires
        target < 64,
    ensures
        r == spec_attackers_of(*board, target as int, color, occupied),
{
    let by_color = board.by_color(color);
    let mut result: u64 = 0;
    result = result | (pawn_attacks(color == Color::Black, target) & board.pawns & by_color);
    result = result | (knight_attacks(target) & board.knights & by_color);
    result = result | (bishop_attacks(target, occupied) & (board.bishops | board.queens)
        & by_color);
    result = result | (rook_attacks(target, occupied) & (board.rooks | board.queens) & by_color);
    result = result | (king_attacks(target) & board.kings & by_color);
    assert(result == spec_attackers_of(*board, target as int, color, occupied)) by {
        let p = pawn_attack_set(color == Color::Black, target as int) & board.pawns & by_color;
        assert(0u64 | p == p) by (bit_vector);
    }
    result
}

/// A set holds at most 64 squares.
pub proof fn lemma_count_bound(b: u64, i: int)
    requires
        0 <= i <= 64,
    ensures
        count_from(b, i) <= 64 - i,
    decreases 64 - i,
{
    if i < 64 {
        lemma_count_bound(b, i + 1);
    }
}

/// Per-square attacker sets of both colours for one position.
#[derive(Debug)]
pub struct AttackMap {
    white_attackers: Vec<u64>,
    black_attackers: Vec<u64>,
}

/// Attacker sets of `color` for every square of `b`.
pub open spec fn attack_table(b: Board, color: Color) -> Seq<u64> {
    Seq::new(64, |i: int| spec_attackers_of(b, i, color, b.spec_occupied()))
}

impl AttackMap {
    /// The attacker sets of `color`, square by square.
    pub closed spec fn table(self, color: Color) -> Seq<u64> {
        match color {
            Color::White => self.white_attackers@,
            Color::Black => self.black_attackers@,
        }
    }

    #[verifier::type_invariant]
    spec fn inv(self) -> bool {
        self.white_attackers@.len() == 64 && self.black_attackers@.len() == 64
    }

    /// Build the map: for every square, the pieces of each colour that
    /// attack it.
    pub fn from_position(pos: &Position) -> (r: AttackMap)
        ensures
            r.table(Color::White) == attack_table(pos.spec_setup().board, Color::White),
            r.table(Color::Black) == attack_table(pos.spec_setup().board, Color::Black),
    {
        let board = &pos.setup().board;
        let occupied = board.occupied();
        let mut white_attackers: Vec<u64> = Vec::new();
        let mut black_attackers: Vec<u64> = Vec::new();
        let mut sq: u8 = 0;
        while sq < 64
            invariant
                sq <= 64,
                occupied == board.spec_occupied(),
                white_attackers@.len() == sq,
                black_attackers@.len() == sq,
                forall|i: int|
                    0 <= i < sq ==> #[trigger] white_attackers@[i] == spec_attackers_of(
                        *board,
                        i,
                        Color::White,
                        occupied,
                    ),
                forall|i: int|
                    0 <= i < sq ==> #[trigger] black_attackers@[i] == spec_attackers_of(
                        *board,
                        i,
                        Color::Black,
                        occupied,
                    ),
            decreases 64 - sq,
        {
            white_attackers.push(attackers_of(board, sq, Color::White, occupied));
            black_attackers.push(attackers_of(board, sq, Color::Black, occupied));
            sq = sq + 1;
        }
        assert(white_attackers@ =~= attack_table(*board, Color::White));
        assert(black_attackers@ =~= attack_table(*board, Color::Black));
        AttackMap { white_attackers, black_attackers }
    }

    /// Attackers of `color` on `target`, as the set of their squares.
    pub fn attackers(&self, target: u8, color: Color) -> (r: u64)
        requires
            target < 64,
        ensures
            r == self.table(color)[target as int],
    {
        proof {
            use_type_invariant(self);
        }
        match color {
            Color::White => self.white_attackers[target as usize],
            Color::Black => self.black_attackers[target as usize],
        }
    }

    /// Number of pieces of `color` attacking `target`.
    pub fn count(&self, target: u8, color: Color) -> (r: u8)
        requires
            target < 64,
        ensures
            r == popcount(self.table(color)[target as int]),
    {
        let bb = self.attackers(target, color);
        proof {
            lemma_count_bound(bb, 0);
        }
        square_count(bb) as u8
    }

    /// True if the piece on `sq` is hanging: attacked by more pieces of the
    /// opposing colour than it is defended by pieces of its own colour.
    /// Empty squares and kings are never hanging (an attacked king is in
    /// check, not a capture opportunity).
    pub fn is_hanging(&self, board: &Board, sq: u8) -> (r: bool)
        requires
            sq < 64,
        ensures
            r == (match board.spec_piece_at(sq as int) {
                None => false,
                Some(piece) => piece.role != Role::King && popcount(
                    self.table(piece.color.spec_other())[sq as int],
                ) > popcount(self.table(piece.color)[sq as int]),
            }),
    {
        let piece = match board.piece_at(sq) {
            None => return false,
            Some(p) => p,
        };
        if piece.role == Role::King {
            return false;
        }
        let defenders = self.count(sq, piece.color);
        let attackers = self.count(sq, piece.color.other());
        attackers > defenders
    }

    /// Compact per-square report for serialisation: attacker counts of
    /// both colours for each of the 64 squares.
    pub fn to_square_data(&self) -> (r: SquareData)
        ensures
            r.squares@.len() == 64,
            forall|i: int|
                0 <= i < 64 ==> #[trigger] r.squares@[i] == (SquareReport {
                    white_attackers: popcount(self.table(Color::White)[i]) as u8,
                    black_attackers: popcount(self.table(Color::Black)[i]) as u8,
                    see: None,
                }),
    {
        let mut squares: Vec<SquareReport> = Vec::new();
        let mut sq: u8 = 0;
        while sq < 64
            invariant
                sq <= 64,
                squares@.len() == sq,
                forall|i: int|
                    0 <= i < sq ==> #[trigger] squares@[i] == (SquareReport {
                        white_attackers: popcount(self.table(Color::White)[i]) as u8,
                        black_attackers: popcount(self.table(Color::Black)[i]) as u8,
                        see: None,
                    }),
            decreases 64 - sq,
        {
            let w = self.count(sq, Color::White);
            let b = self.count(sq, Color::Black);
            squares.push(SquareReport { white_attackers: w, black_attackers: b, see: None });
            sq = sq + 1;
        }
        SquareData { squares }
    }
}

/// A legal move annotated with the analysis hooks the explainer consumes.
#[derive(Debug, Clone, Default)]
pub struct CandidateMove {
    pub uci: String,
    pub san: String,
    pub material_change: i32,
    pub see: Option<i32>,
    pub gives_check: bool,
    pub is_capture: bool,
    /// Names of tactical motifs this move creates or executes, e.g. "fork".
    pub tactics: Vec<String>,
    /// Names of positional features this move changes, e.g. "opens-d-file".
    pub positional: Vec<String>,
    pub rank: u32,
}

} // verus!
