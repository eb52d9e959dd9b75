//! Static Exchange Evaluation.
//!
//! Given a capture (from, to), SEE answers: "if both sides play the
//! exchange on `to` optimally, picking their least valuable attacker each
//! time and allowed to stop at any point, what is the net material swing?"
//! Positive = the initiating side wins material, zero = equal trade,
//! negative = losing capture.
//!
//! X-ray attackers (batteries, bishop behind queen, rook behind rook) come
//! into view because slider attacks are recomputed after each capture with
//! the capturer's square cleared from the occupancy.

use vstd::prelude::*;

use crate::bitboard::{
    bishop_attack_set, bishop_attacks, first_square, king_attack_set, king_attacks,
    knight_attack_set, knight_attacks, lowest_square, pawn_attack_set, pawn_attacks,
    rook_attack_set, rook_attacks, square_bb,
};
use crate::position::{Board, Color, Piece, Position, Role, Setup};

verus! {

/// Longest exchange followed: the initial capture and up to this many
/// recaptures minus one (no square can be the target of more captures
/// than there are pieces).
pub const MAX_EXCHANGE: usize = 32;

pub open spec fn spec_piece_value(role: Role) -> int {
    match role {
        Role::Pawn => 100,
        Role::Knight => 300,
        Role::Bishop => 320,
        Role::Rook => 500,
        Role::Queen => 900,
        Role::King => 10_000,
    }
}

/// Centipawn value of a role in the exchange. The king's value is large
/// enough that an exchange never gives it up voluntarily.
pub fn piece_value(role: Role) -> (r: i32)
    ensures
        r == spec_piece_value(role),
{
    match role {
        Role::Pawn => 100,
        Role::Knight => 300,
        Role::Bishop => 320,
        Role::Rook => 500,
        Role::Queen => 900,
        Role::King => 10_000,
    }
}

/// Squares of the pieces of `side` (within `occupied`) that attack
/// `target`, by role, under the occupancy `occupied`.
pub open spec fn pawn_attackers(b: Board, target: int, side: Color, occupied: u64) -> u64 {
    pawn_attack_set(side == Color::Black, target) & b.pawns & (b.spec_by_color(side) & occupied)
}

pub open spec fn knight_attackers(b: Board, target: int, side: Color, occupied: u64) -> u64 {
    knight_attack_set(target) & b.knights & (b.spec_by_color(side) & occupied)
}

pub open spec fn bishop_attackers(b: Board, target: int, side: Color, occupied: u64) -> u64 {
    bishop_attack_set(target, occupied) & b.bishops & (b.spec_by_color(side) & occupied)
}

pub open spec fn rook_attackers(b: Board, target: int, side: Color, occupied: u64) -> u64 {
    rook_attack_set(target, occupied) & b.rooks & (b.spec_by_color(side) & occupied)
}

pub open spec fn queen_attackers(b: Board, target: int, side: Color, occupied: u64) -> u64 {
    (bishop_attack_set(target, occupied) | rook_attack_set(target, occupied)) & b.queens & (
    b.spec_by_color(side) & occupied)
}

pub open spec fn king_attackers(b: Board, target: int, side: Color, occupied: u64) -> u64 {
    king_attack_set(target) & b.kings & (b.spec_by_color(side) & occupied)
}

/// `side` has some piece (within `occupied`) attacking `target`.
pub open spec fn spec_has_attacker(b: Board, target: int, side: Color, occupied: u64) -> bool {
    ||| pawn_attackers(b, target, side, occupied) != 0
    ||| knight_attackers(b, target, side, occupied) != 0
    ||| (bishop_attack_set(target, occupied) & (b.bishops | b.queens) & (b.spec_by_color(side)
        & occupied)) != 0
    ||| (rook_attack_set(target, occupied) & (b.rooks | b.queens) & (b.spec_by_color(side)
        & occupied)) != 0
    ||| king_attackers(b, target, side, occupied) != 0
}

/// The least valuable attacker of `target` belonging to `side` under the
/// occupancy `occupied`: the lowest square among the pawn attackers, else
/// among the knights, bishops, rooks, queens, and last the king, which only
/// counts when the other side has no attacker left (else it would step
/// into check).
#[verifier::opaque]
pub open spec fn spec_lva(b: Board, target: int, side: Color, occupied: u64) -> Option<(u8, Role)> {
    let pawns = pawn_attackers(b, target, side, occupied);
    let knights = knight_attackers(b, target, side, occupied);
    let bishops = bishop_attackers(b, target, side, occupied);
    let rooks = rook_attackers(b, target, side, occupied);
    let queens = queen_attackers(b, target, side, occupied);
    let kings = king_attackers(b, target, side, occupied);
    if pawns != 0 {
        Some((lowest_square(pawns) as u8, Role::Pawn))
    } else if knights != 0 {
        Some((lowest_square(knights) as u8, Role::Knight))
    } else if bishops != 0 {
        Some((lowest_square(bishops) as u8, Role::Bishop))
    } else if rooks != 0 {
        Some((lowest_square(rooks) as u8, Role::Rook))
    } else if queens != 0 {
        Some((lowest_square(queens) as u8, Role::Queen))
    } else if kings == 0 || spec_has_attacker(b, target, side.spec_other(), occupied) {
        None
    } else {
        Some((lowest_square(kings) as u8, Role::King))
    }
}

/// Best material gain `side` can secure on `target`, where a piece worth
/// `victim` stands, if `side` may recapture with its least valuable
/// attacker or stop; the opponent then answers the same way. Looks at most
/// `depth` captures ahead.
pub open spec fn exchange_gain(
    b: Board,
    target: int,
    side: Color,
    occupied: u64,
    victim: int,
    depth: nat,
) -> int
    decreases depth,
{
    if depth == 0 {
        0
    } else {
        match spec_lva(b, target, side, occupied) {
            None => 0,
            Some((from, role)) => {
                let reply = exchange_gain(
                    b,
                    target,
                    side.spec_other(),
                    occupied ^ square_bb(from as int),
                    spec_piece_value(role),
                    (depth - 1) as nat,
                );
                if victim - reply > 0 {
                    victim - reply
                } else {
                    0
                }
            },
        }
    }
}

/// En passant victim square for a pawn capturing from `from` to `to`.
pub open spec fn ep_victim(from: int, to: int) -> int {
    (from / 8) * 8 + to % 8
}

/// SEE of the capture `from` x `to` in `setup`: the value of the captured
/// piece minus what the opponent then wins back by the best exchange; zero
/// when `from` is empty or the move captures nothing. An en passant
/// capture removes the pawn beside `to` before the exchange starts.
pub open spec fn spec_see(setup: Setup, from: int, to: int) -> int {
    let b = setup.board;
    match b.spec_piece_at(from) {
        None => 0,
        Some(attacker) => match b.spec_piece_at(to) {
            Some(target) => spec_piece_value(target.role) - exchange_gain(
                b,
                to,
                attacker.color.spec_other(),
                b.spec_occupied() ^ square_bb(from),
                spec_piece_value(attacker.role),
                (MAX_EXCHANGE - 1) as nat,
            ),
            None => if attacker.role == Role::Pawn && setup.ep_square == Some(to as u8) {
                100 - exchange_gain(
                    b,
                    to,
                    attacker.color.spec_other(),
                    (b.spec_occupied() ^ square_bb(ep_victim(from, to))) ^ square_bb(from),
                    spec_piece_value(attacker.role),
                    (MAX_EXCHANGE - 1) as nat,
                )
            } else {
                0
            },
        },
    }
}

/// Whether the side to answer wins material back stays within what the
/// victim is worth.
pub proof fn lemma_exchange_gain_bounds(
    b: Board,
    target: int,
    side: Color,
    occupied: u64,
    victim: int,
    depth: nat,
)
    requires
        victim >= 0,
    ensures
        0 <= exchange_gain(b, target, side, occupied, victim, depth) <= victim,
    decreases depth,
{
    if depth > 0 {
        if let Some((from, role)) = spec_lva(b, target, side, occupied) {
            lemma_exchange_gain_bounds(
                b,
                target,
                side.spec_other(),
                occupied ^ square_bb(from as int),
                spec_piece_value(role),
                (depth - 1) as nat,
            );
        }
    }
}

/// A capture never wins more than the captured piece, and never loses more
/// than the capturer: its SEE lies between the two values' difference and
/// the captured piece's value (for en passant, the pawn's).
pub proof fn law_see_bounds(setup: Setup, from: int, to: int)
    requires
        setup.board.spec_piece_at(from) is Some,
    ensures
        ({
            let attacker = setup.board.spec_piece_at(from).unwrap();
            let taken = match setup.board.spec_piece_at(to) {
                Some(t) => spec_piece_value(t.role),
                None => 100,
            };
            let captures = setup.board.spec_piece_at(to) is Some || (attacker.role == Role::Pawn
                && setup.ep_square == Some(to as u8));
            captures ==> taken - spec_piece_value(attacker.role) <= spec_see(setup, from, to) <= taken
        }),
{
    let b = setup.board;
    let attacker = b.spec_piece_at(from).unwrap();
    match b.spec_piece_at(to) {
        Some(t) => {
            lemma_exchange_gain_bounds(
                b,
                to,
                attacker.color.spec_other(),
                b.spec_occupied() ^ square_bb(from),
                spec_piece_value(attacker.role),
                (MAX_EXCHANGE - 1) as nat,
            );
        },
        None => {
            lemma_exchange_gain_bounds(
                b,
                to,
                attacker.color.spec_other(),
                (b.spec_occupied() ^ square_bb(ep_victim(from, to))) ^ square_bb(from),
                spec_piece_value(attacker.role),
                (MAX_EXCHANGE - 1) as nat,
            );
        },
    }
}

/// Score `s` of the capture of `victim` on `target` by `side`'s least
/// valuable attacker: `victim` minus what the answer is worth when positive,
/// `s = victim - max(0, s')`, where `s'` is the score of the opponent
/// capturing that attacker in turn; zero when `side` has no attacker left
/// (or after `depth` captures).
pub open spec fn capture_score(
    b: Board,
    target: int,
    side: Color,
    occupied: u64,
    victim: int,
    depth: nat,
) -> int
    decreases depth,
{
    if depth == 0 {
        0
    } else {
        match spec_lva(b, target, side, occupied) {
            None => 0,
            Some((from, role)) => victim - max0(
                capture_score(
                    b,
                    target,
                    side.spec_other(),
                    occupied ^ square_bb(from as int),
                    spec_piece_value(role),
                    (depth - 1) as nat,
                ),
            ),
        }
    }
}

pub open spec fn max0(x: int) -> int {
    if x > 0 {
        x
    } else {
        0
    }
}

proof fn lemma_gain_is_max0_score(
    b: Board,
    target: int,
    side: Color,
    occupied: u64,
    victim: int,
    depth: nat,
)
    ensures
        exchange_gain(b, target, side, occupied, victim, depth) == max0(
            capture_score(b, target, side, occupied, victim, depth),
        ),
    decreases depth,
{
    if depth > 0 {
        if let Some((from, role)) = spec_lva(b, target, side, occupied) {
            lemma_gain_is_max0_score(
                b,
                target,
                side.spec_other(),
                occupied ^ square_bb(from as int),
                spec_piece_value(role),
                (depth - 1) as nat,
            );
        }
    }
}

/// The swap-list recurrence: the SEE of a capture is `s(0)`, where
/// `s(k) = v(k) - max(0, s(k + 1))`, `v(0)` is the captured piece (a pawn
/// for en passant) and `v(k)` the piece that made capture `k - 1`; each
/// capture is made by that side's least valuable attacker of `to`, with
/// x-rays revealed as pieces leave, and `s(k + 1) = 0` when it has none.
/// A move that captures nothing, or from an empty square, scores zero.
pub proof fn law_see_recurrence(setup: Setup, from: int, to: int)
    ensures
        ({
            let b = setup.board;
            match b.spec_piece_at(from) {
                None => spec_see(setup, from, to) == 0,
                Some(attacker) => {
                    let ep = b.spec_piece_at(to) is None && attacker.role == Role::Pawn
                        && setup.ep_square == Some(to as u8);
                    let taken = match b.spec_piece_at(to) {
                        Some(t) => spec_piece_value(t.role),
                        None => 100,
                    };
                    let occupied = if ep {
                        (b.spec_occupied() ^ square_bb(ep_victim(from, to))) ^ square_bb(from)
                    } else {
                        b.spec_occupied() ^ square_bb(from)
                    };
                    if b.spec_piece_at(to) is Some || ep {
                        spec_see(setup, from, to) == taken - max0(
                            capture_score(
                                b,
                                to,
                                attacker.color.spec_other(),
                                occupied,
                                spec_piece_value(attacker.role),
                                (MAX_EXCHANGE - 1) as nat,
                            ),
                        )
                    } else {
                        spec_see(setup, from, to) == 0
                    }
                },
            }
        }),
{
    let b = setup.board;
    if let Some(attacker) = b.spec_piece_at(from) {
        let ep = b.spec_piece_at(to) is None && attacker.role == Role::Pawn && setup.ep_square
            == Some(to as u8);
        let occupied = if ep {
            (b.spec_occupied() ^ square_bb(ep_victim(from, to))) ^ square_bb(from)
        } else {
            b.spec_occupied() ^ square_bb(from)
        };
        lemma_gain_is_max0_score(
            b,
            to,
            attacker.color.spec_other(),
            occupied,
            spec_piece_value(attacker.role),
            (MAX_EXCHANGE - 1) as nat,
        );
    }
}

/// The pieces of `side` of role `r` (within `occupied`) that attack
/// `target`.
pub open spec fn role_attackers(b: Board, target: int, side: Color, occupied: u64, r: Role) -> u64 {
    match r {
        Role::Pawn => pawn_attackers(b, target, side, occupied),
        Role::Knight => knight_attackers(b, target, side, occupied),
        Role::Bishop => bishop_attackers(b, target, side, occupied),
        Role::Rook => rook_attackers(b, target, side, occupied),
        Role::Queen => queen_attackers(b, target, side, occupied),
        Role::King => king_attackers(b, target, side, occupied),
    }
}

/// The least valuable attacker is one of least value: it attacks the
/// target (the lowest square among the attackers of its role), and `side`
/// has no attacker of any role worth less. The king captures only when the
/// other side has no attacker left. There is no attacker exactly when
/// `side` has none but a king that may not capture.
pub proof fn law_lva_is_least_valuable(b: Board, target: int, side: Color, occupied: u64)
    ensures
        spec_lva(b, target, side, occupied) matches Some((sq, role)) ==> {
            &&& role_attackers(b, target, side, occupied, role) != 0
            &&& sq == lowest_square(role_attackers(b, target, side, occupied, role)) as u8
            &&& forall|r: Role|
                spec_piece_value(r) < spec_piece_value(role) ==> #[trigger] role_attackers(
                    b,
                    target,
                    side,
                    occupied,
                    r,
                ) == 0
            &&& role == Role::King ==> !spec_has_attacker(b, target, side.spec_other(), occupied)
        },
        spec_lva(b, target, side, occupied) is None ==> {
            &&& forall|r: Role| r != Role::King ==> #[trigger] role_attackers(b, target, side, occupied, r) == 0
            &&& (king_attackers(b, target, side, occupied) == 0 || spec_has_attacker(
                b,
                target,
                side.spec_other(),
                occupied,
            ))
        },
{
    reveal(spec_lva);
}

/// Does `side` have any attacker on `target` under `occupied`?
fn has_attacker(board: &Board, target: u8, side: Color, occupied: u64) -> (r: bool)
    requires
        target < 64,
    ensures
        r == spec_has_attacker(*board, target as int, side, occupied),
{
    let own = board.by_color(side) & occupied;
    if pawn_attacks(side == Color::Black, target) & board.pawns & own != 0 {
        return true;
    }
    if knight_attacks(target) & board.knights & own != 0 {
        return true;
    }
    let diag = bishop_attacks(target, occupied);
    if diag & (board.bishops | board.queens) & own != 0 {
        return true;
    }
    let orth = rook_attacks(target, occupied);
    if orth & (board.rooks | board.queens) & own != 0 {
        return true;
    }
    king_attacks(target) & board.kings & own != 0
}

/// The least valuable attacker of `target` belonging to `side`, given the
/// occupancy `occupied` (the exchange clears used attackers from it, which
/// reveals x-rays).
pub fn least_valuable_attacker(board: &Board, target: u8, side: Color, occupied: u64) -> (r: Option<
    (u8, Role),
>)
    requires
        target < 64,
    ensures
        r == spec_lva(*board, target as int, side, occupied),
        r matches Some((s, _)) ==> s < 64,
{
    reveal(spec_lva);
    let own = board.by_color(side) & occupied;
    let pawns = pawn_attacks(side == Color::Black, target) & board.pawns & own;
    if let Some(sq) = first_square(pawns) {
        return Some((sq, Role::Pawn));
    }
    let knights = knight_attacks(target) & board.knights & own;
    if let Some(sq) = first_square(knights) {
        return Some((sq, Role::Knight));
    }
    let diag = bishop_attacks(target, occupied);
    let bishops = diag & board.bishops & own;
    if let Some(sq) = first_square(bishops) {
        return Some((sq, Role::Bishop));
    }
    let orth = rook_attacks(target, occupied);
    let rooks = orth & board.rooks & own;
    if let Some(sq) = first_square(rooks) {
        return Some((sq, Role::Rook));
    }
    let queens = (diag | orth) & board.queens & own;
    if let Some(sq) = first_square(queens) {
        return Some((sq, Role::Queen));
    }
    let kings = king_attacks(target) & board.kings & own;
    if kings == 0 {
        return None;
    }
    if has_attacker(board, target, side.other(), occupied) {
        return None;
    }
    match first_square(kings) {
        Some(sq) => Some((sq, Role::King)),
        None => None,
    }
}

/// Link `j` of a recorded exchange on `target`: the side to make capture
/// `j + 1` has a least valuable attacker, worth `values[j + 1]`, and
/// making that capture hands the move to the other side with the
/// attacker's square cleared.
pub open spec fn exchange_link(
    b: Board,
    target: int,
    sides: Seq<Color>,
    occs: Seq<u64>,
    values: Seq<i32>,
    j: int,
) -> bool {
    &&& spec_lva(b, target, sides[j], occs[j]) matches Some((sq, role))
    &&& values[j + 1] == spec_piece_value(role)
    &&& sides[j + 1] == sides[j].spec_other()
    &&& occs[j + 1] == occs[j] ^ square_bb(sq as int)
}

/// One step of the backward fold: across a link, the gain of the side to
/// move is what it captures minus the best reply, or nothing if it stops.
proof fn lemma_fold_step(
    b: Board,
    target: int,
    sides: Seq<Color>,
    occs: Seq<u64>,
    values: Seq<i32>,
    j: int,
    depth: nat,
)
    requires
        exchange_link(b, target, sides, occs, values, j),
    ensures
        exchange_gain(b, target, sides[j], occs[j], values[j] as int, depth + 1) == ({
            let reply = exchange_gain(
                b,
                target,
                sides[j + 1],
                occs[j + 1],
                values[j + 1] as int,
                depth,
            );
            if values[j] - reply > 0 {
                values[j] - reply
            } else {
                0
            }
        }),
{
}

/// SEE of an exchange on `to` that starts with the piece on `from` taking
/// a victim worth `initial_gain`, `occupied` being the occupancy before
/// the first capture (minus an en passant victim).
fn swap_exchange(
    board: &Board,
    attacker: Piece,
    from: u8,
    to: u8,
    initial_gain: i32,
    occupied: u64,
) -> (r: i32)
    requires
        from < 64,
        to < 64,
        0 <= initial_gain <= 10_000,
    ensures
        r == initial_gain - exchange_gain(
            *board,
            to as int,
            attacker.color.spec_other(),
            occupied ^ square_bb(from as int),
            spec_piece_value(attacker.role),
            (MAX_EXCHANGE - 1) as nat,
        ),
{
    // values[k] is the value of the piece making capture k (capture 0 is
    // the initial one); sides[k] / occs[k] describe who may make capture
    // k + 1 and the occupancy they see.
    let mut values: Vec<i32> = Vec::new();
    values.push(piece_value(attacker.role));
    let ghost mut sides: Seq<Color> = seq![attacker.color.spec_other()];
    let ghost mut occs: Seq<u64> = seq![occupied ^ square_bb(from as int)];
    let mut occ: u64 = occupied;
    let mut current_from: u8 = from;
    let mut side: Color = attacker.color;
    loop
        invariant_except_break
            1 <= values.len() < MAX_EXCHANGE,
        invariant
            1 <= values.len() <= MAX_EXCHANGE,
            sides.len() == values.len(),
            occs.len() == values.len(),
            current_from < 64,
            to < 64,
            values@[0] == spec_piece_value(attacker.role),
            sides[0] == attacker.color.spec_other(),
            occs[0] == occupied ^ square_bb(from as int),
            forall|k: int| 0 <= k < values.len() ==> 0 <= #[trigger] values@[k] <= 10_000,
            forall|k: int|
                0 <= k < values.len() - 1 ==> #[trigger] exchange_link(
                    *board,
                    to as int,
                    sides,
                    occs,
                    values@,
                    k,
                ),
            sides[values.len() - 1] == side.spec_other(),
            occs[values.len() - 1] == occ ^ square_bb(current_from as int),
        ensures
            values.len() == MAX_EXCHANGE || spec_lva(
                *board,
                to as int,
                sides[values.len() - 1],
                occs[values.len() - 1],
            ) is None,
        decreases MAX_EXCHANGE - values.len(),
    {
        let next_occ: u64 = occ ^ (1u64 << current_from);
        let next_side = side.other();
        assert(next_occ == occ ^ square_bb(current_from as int));
        match least_valuable_attacker(board, to, next_side, next_occ) {
            None => break,
            Some((sq, role)) => {
                let ghost old_values = values@;
                let ghost old_sides = sides;
                let ghost old_occs = occs;
                let v = piece_value(role);
                values.push(v);
                proof {
                    sides = sides.push(next_side.spec_other());
                    occs = occs.push(next_occ ^ square_bb(sq as int));
                    assert forall|k: int| 0 <= k < values.len() - 1 implies #[trigger] exchange_link(
                        *board,
                        to as int,
                        sides,
                        occs,
                        values@,
                        k,
                    ) by {
                        if k < old_values.len() - 1 {
                            assert(exchange_link(
                                *board,
                                to as int,
                                old_sides,
                                old_occs,
                                old_values,
                                k,
                            ));
                            assert(sides[k] == old_sides[k] && sides[k + 1] == old_sides[k + 1]);
                            assert(occs[k] == old_occs[k] && occs[k + 1] == old_occs[k + 1]);
                            assert(values@[k + 1] == old_values[k + 1]);
                        }
                    }
                }
                occ = next_occ;
                side = next_side;
                current_from = sq;
                if values.len() >= MAX_EXCHANGE {
                    break;
                }
            },
        }
    }
    // Fold from the last capture back: `reply` is the best the side about
    // to make capture k can secure (it may also decline).
    let n = values.len();
    let mut reply: i32 = 0;
    let mut k: usize = n;
    while k > 1
        invariant
            1 <= k <= n,
            n == values.len(),
            1 <= n <= MAX_EXCHANGE,
            sides.len() == n,
            occs.len() == n,
            forall|j: int| 0 <= j < n ==> 0 <= #[trigger] values@[j] <= 10_000,
            forall|j: int|
                0 <= j < n - 1 ==> #[trigger] exchange_link(
                    *board,
                    to as int,
                    sides,
                    occs,
                    values@,
                    j,
                ),
            n == MAX_EXCHANGE || spec_lva(*board, to as int, sides[n - 1], occs[n - 1]) is None,
            0 <= reply <= 10_000,
            reply == exchange_gain(
                *board,
                to as int,
                sides[k - 1],
                occs[k - 1],
                values@[k - 1] as int,
                (MAX_EXCHANGE - k) as nat,
            ),
        decreases k,
    {
        proof {
            lemma_fold_step(
                *board,
                to as int,
                sides,
                occs,
                values@,
                k - 2,
                (MAX_EXCHANGE - k) as nat,
            );
        }
        k = k - 1;
        let net = values[k - 1] - reply;
        reply = if net > 0 {
            net
        } else {
            0
        };
    }
    initial_gain - reply
}

/// SEE for a specific capture move, read in centipawns; 0 for quiet moves
/// and for an empty `from`. Handles en passant: a pawn moving diagonally to
/// the position's en passant square removes the pawn beside it first.
pub fn see(position: &Position, from: u8, to: u8) -> (r: i32)
    requires
        from < 64,
        to < 64,
    ensures
        r == spec_see(position.spec_setup(), from as int, to as int),
{
    let setup = position.setup();
    let board = &setup.board;
    let attacker = match board.piece_at(from) {
        None => return 0,
        Some(p) => p,
    };
    match board.piece_at(to) {
        Some(target) => swap_exchange(
            board,
            attacker,
            from,
            to,
            piece_value(target.role),
            board.occupied(),
        ),
        None => {
            if attacker.role == Role::Pawn && setup.ep_square == Some(to) {
                let victim: u8 = (from / 8) * 8 + to % 8;
                swap_exchange(
                    board,
                    attacker,
                    from,
                    to,
                    piece_value(Role::Pawn),
                    board.occupied() ^ (1u64 << victim),
                )
            } else {
                0
            }
        },
    }
}

/// SEE on `to` with `side`'s least valuable attacker making the first
/// capture; `None` when `to` is empty or `side` has no attacker on it.
pub open spec fn spec_see_on_square(setup: Setup, to: int, side: Color) -> Option<int> {
    let b = setup.board;
    match b.spec_piece_at(to) {
        None => None,
        Some(_) => match spec_lva(b, to, side, b.spec_occupied()) {
            None => None,
            Some((from, _)) => Some(spec_see(setup, from as int, to)),
        },
    }
}

/// SEE on `to` with `side`'s least valuable attacker initiating; `None` if
/// the square is empty or `side` has no attacker on it.
pub fn see_on_square(position: &Position, to: u8, side: Color) -> (r: Option<i32>)
    requires
        to < 64,
    ensures
        match r {
            Some(v) => spec_see_on_square(position.spec_setup(), to as int, side) == Some(v as int),
            None => spec_see_on_square(position.spec_setup(), to as int, side) is None,
        },
{
    let board = &position.setup().board;
    if board.piece_at(to).is_none() {
        return None;
    }
    match least_valuable_attacker(board, to, side, board.occupied()) {
        None => None,
        Some((from, _)) => Some(see(position, from, to)),
    }
}

} // verus!
