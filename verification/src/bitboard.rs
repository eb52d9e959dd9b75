//! Bitboards as plain `u64` sets of squares (a1 = 0 .. h8 = 63), the
//! square geometry that chess attacks follow, and the attack tables of
//! `shakmaty` behind trusted wrappers.

use vstd::prelude::*;

verus! {

/// Bit `i` of `b` is set: square `i` belongs to the set `b`.
pub open spec fn bit(b: u64, i: int) -> bool {
    0 <= i < 64 && (b & (1u64 << (i as u64))) != 0
}

/// The single-square set `{sq}`.
pub open spec fn square_bb(sq: int) -> u64 {
    1u64 << (sq as u64)
}

pub open spec fn file_of(sq: int) -> int {
    sq % 8
}

pub open spec fn rank_of(sq: int) -> int {
    sq / 8
}

pub open spec fn abs_int(x: int) -> int {
    if x < 0 {
        -x
    } else {
        x
    }
}

pub open spec fn sign_int(x: int) -> int {
    if x < 0 {
        -1
    } else if x > 0 {
        1
    } else {
        0
    }
}

/// A knight on `from` attacks `to`.
pub open spec fn knight_step(from: int, to: int) -> bool {
    let df = abs_int(file_of(to) - file_of(from));
    let dr = abs_int(rank_of(to) - rank_of(from));
    (df == 1 && dr == 2) || (df == 2 && dr == 1)
}

/// A king on `from` attacks `to`.
pub open spec fn king_step(from: int, to: int) -> bool {
    let df = abs_int(file_of(to) - file_of(from));
    let dr = abs_int(rank_of(to) - rank_of(from));
    df <= 1 && dr <= 1 && (df != 0 || dr != 0)
}

/// A pawn of the given colour on `from` attacks `to` (one rank forward,
/// one file aside; White moves up the board).
pub open spec fn pawn_step(white: bool, from: int, to: int) -> bool {
    let df = abs_int(file_of(to) - file_of(from));
    let dr = rank_of(to) - rank_of(from);
    df == 1 && (if white {
        dr == 1
    } else {
        dr == -1
    })
}

/// Number of king steps between `from` and `to` along a line.
pub open spec fn line_distance(from: int, to: int) -> int {
    let df = abs_int(file_of(to) - file_of(from));
    let dr = abs_int(rank_of(to) - rank_of(from));
    if df > dr {
        df
    } else {
        dr
    }
}

/// Every square strictly between `from` and `to` on their common line is
/// empty in `occupied`.
pub open spec fn path_clear(from: int, to: int, occupied: u64) -> bool {
    let step = sign_int(file_of(to) - file_of(from)) + 8 * sign_int(rank_of(to) - rank_of(from));
    forall|k: int|
        0 < k < line_distance(from, to) ==> !bit(occupied, #[trigger] ray_square(from, step, k))
}

/// The square `k` steps of `step` away from `from`.
pub open spec fn ray_square(from: int, step: int, k: int) -> int {
    from + k * step
}

/// `to` lies on a diagonal through `from` (and differs from it).
pub open spec fn diagonal_line(from: int, to: int) -> bool {
    let df = abs_int(file_of(to) - file_of(from));
    let dr = abs_int(rank_of(to) - rank_of(from));
    df == dr && df > 0
}

/// `to` lies on the same rank or file as `from` (and differs from it).
pub open spec fn straight_line(from: int, to: int) -> bool {
    let df = abs_int(file_of(to) - file_of(from));
    let dr = abs_int(rank_of(to) - rank_of(from));
    (df == 0 && dr > 0) || (dr == 0 && df > 0)
}

/// A bishop on `from` attacks `to` given the blockers in `occupied`: the
/// first occupied square on each ray is attacked, nothing behind it.
pub open spec fn bishop_reach(from: int, to: int, occupied: u64) -> bool {
    diagonal_line(from, to) && path_clear(from, to, occupied)
}

/// A rook on `from` attacks `to` given the blockers in `occupied`.
pub open spec fn rook_reach(from: int, to: int, occupied: u64) -> bool {
    straight_line(from, to) && path_clear(from, to, occupied)
}

/// Index of the lowest set bit of `b` at or above `i`, or 64 if none.
pub open spec fn lowest_from(b: u64, i: int) -> int
    decreases 64 - i,
{
    if i >= 64 || i < 0 {
        64
    } else if bit(b, i) {
        i
    } else {
        lowest_from(b, i + 1)
    }
}

/// The lowest square of a non-empty set.
pub open spec fn lowest_square(b: u64) -> int {
    lowest_from(b, 0)
}

/// Number of squares in `b` among `i..64`.
pub open spec fn count_from(b: u64, i: int) -> nat
    decreases 64 - i,
{
    if i >= 64 || i < 0 {
        0
    } else {
        (if bit(b, i) {
            1nat
        } else {
            0nat
        }) + count_from(b, i + 1)
    }
}

/// Number of squares in the set `b`.
pub open spec fn popcount(b: u64) -> nat {
    count_from(b, 0)
}

/// The attack set that `shakmaty::attacks::pawn_attacks` returns.
pub uninterp spec fn pawn_attack_set(white: bool, sq: int) -> u64;

/// The attack set that `shakmaty::attacks::knight_attacks` returns.
pub uninterp spec fn knight_attack_set(sq: int) -> u64;

/// The attack set that `shakmaty::attacks::king_attacks` returns.
pub uninterp spec fn king_attack_set(sq: int) -> u64;

/// The attack set that `shakmaty::attacks::bishop_attacks` returns.
pub uninterp spec fn bishop_attack_set(sq: int, occupied: u64) -> u64;

/// The attack set that `shakmaty::attacks::rook_attacks` returns.
pub uninterp spec fn rook_attack_set(sq: int, occupied: u64) -> u64;

/// Attack set of a pawn, per `shakmaty::attacks::pawn_attacks`: the
/// squares diagonally in front of `sq` from `white`'s side of view.
#[verifier::external_body]
pub(crate) fn pawn_attacks(white: bool, sq: u8) -> (r: u64)
    requires
        sq < 64,
    ensures
        r == pawn_attack_set(white, sq as int),
        forall|t: int| 0 <= t < 64 ==> (bit(r, t) <==> pawn_step(white, sq as int, t)),
{
    let color = if white {
        shakmaty::Color::White
    } else {
        shakmaty::Color::Black
    };
    shakmaty::attacks::pawn_attacks(color, shakmaty::Square::new(sq as u32)).0
}

/// Attack set of a knight, per `shakmaty::attacks::knight_attacks`.
#[verifier::external_body]
pub(crate) fn knight_attacks(sq: u8) -> (r: u64)
    requires
        sq < 64,
    ensures
        r == knight_attack_set(sq as int),
        forall|t: int| 0 <= t < 64 ==> (bit(r, t) <==> knight_step(sq as int, t)),
{
    shakmaty::attacks::knight_attacks(shakmaty::Square::new(sq as u32)).0
}

/// Attack set of a king, per `shakmaty::attacks::king_attacks`.
#[verifier::external_body]
pub(crate) fn king_attacks(sq: u8) -> (r: u64)
    requires
        sq < 64,
    ensures
        r == king_attack_set(sq as int),
        forall|t: int| 0 <= t < 64 ==> (bit(r, t) <==> king_step(sq as int, t)),
{
    shakmaty::attacks::king_attacks(shakmaty::Square::new(sq as u32)).0
}

/// Attack set of a bishop with the given blockers, per
/// `shakmaty::attacks::bishop_attacks`: each diagonal ray up to and
/// including its first occupied square.
#[verifier::external_body]
pub(crate) fn bishop_attacks(sq: u8, occupied: u64) -> (r: u64)
    requires
        sq < 64,
    ensures
        r == bishop_attack_set(sq as int, occupied),
        forall|t: int| 0 <= t < 64 ==> (bit(r, t) <==> bishop_reach(sq as int, t, occupied)),
{
    shakmaty::attacks::bishop_attacks(
        shakmaty::Square::new(sq as u32),
        shakmaty::Bitboard(occupied),
    ).0
}

/// Attack set of a rook with the given blockers, per
/// `shakmaty::attacks::rook_attacks`: each rank and file ray up to and
/// including its first occupied square.
#[verifier::external_body]
pub(crate) fn rook_attacks(sq: u8, occupied: u64) -> (r: u64)
    requires
        sq < 64,
    ensures
        r == rook_attack_set(sq as int, occupied),
        forall|t: int| 0 <= t < 64 ==> (bit(r, t) <==> rook_reach(sq as int, t, occupied)),
{
    shakmaty::attacks::rook_attacks(
        shakmaty::Square::new(sq as u32),
        shakmaty::Bitboard(occupied),
    ).0
}

proof fn lemma_low_bits_clear(b: u64, i: u64)
    requires
        i < 63,
        (b >> i) << i == b,
        b & (1u64 << i) == 0,
    ensures
        (b >> (i + 1) as u64) << (i + 1) as u64 == b,
{
    assert(((b >> i) << i == b && b & (1u64 << i) == 0 && i < 63) ==> (b >> (i + 1) as u64) << (i
        + 1) as u64 == b) by (bit_vector);
}

/// First (lowest) square of a set: `None` exactly for the empty set.
pub(crate) fn first_square(b: u64) -> (r: Option<u8>)
    ensures
        r == (if b == 0 {
            None::<u8>
        } else {
            Some(lowest_square(b) as u8)
        }),
        r matches Some(s) ==> s < 64,
{
    if b == 0 {
        return None;
    }
    let mut i: u8 = 0;
    assert((b >> 0u64) << 0u64 == b) by (bit_vector);
    while i < 63
        invariant
            i <= 63,
            b != 0,
            (b >> (i as u64)) << (i as u64) == b,
            lowest_from(b, 0) == lowest_from(b, i as int),
        decreases 63 - i,
    {
        if contains(b, i) {
            return Some(i);
        }
        proof {
            lemma_low_bits_clear(b, i as u64);
        }
        i = i + 1;
    }
    if contains(b, 63) {
        return Some(63);
    }
    assert(false) by {
        assert(((b >> 63u64) << 63u64 == b && b & (1u64 << 63u64) == 0) ==> b == 0) by (bit_vector);
    }
    None
}

/// Number of squares in a set.
pub(crate) fn square_count(b: u64) -> (r: usize)
    ensures
        r == popcount(b),
{
    let mut n: usize = 0;
    let mut i: u8 = 64;
    while i > 0
        invariant
            i <= 64,
            n == count_from(b, i as int),
            n <= 64 - i,
        decreases i,
    {
        i = i - 1;
        if contains(b, i) {
            n = n + 1;
        }
    }
    n
}

/// `c` lies on the full rank, file or diagonal through the distinct squares
/// `a` and `b` (the line through them, checked in that order); never when
/// `a == b` or the two share no line.
pub open spec fn spec_aligned(a: int, b: int, c: int) -> bool {
    a != b && if file_of(a) == file_of(b) {
        file_of(c) == file_of(a)
    } else if rank_of(a) == rank_of(b) {
        rank_of(c) == rank_of(a)
    } else if rank_of(a) - file_of(a) == rank_of(b) - file_of(b) {
        rank_of(c) - file_of(c) == rank_of(a) - file_of(a)
    } else if rank_of(a) + file_of(a) == rank_of(b) + file_of(b) {
        rank_of(c) + file_of(c) == rank_of(a) + file_of(a)
    } else {
        false
    }
}

/// Whether three squares share a line.
pub(crate) fn aligned(a: u8, b: u8, c: u8) -> (r: bool)
    requires
        a < 64,
        b < 64,
        c < 64,
    ensures
        r == spec_aligned(a as int, b as int, c as int),
{
    if a == b {
        return false;
    }
    let fa = (a % 8) as i16;
    let ra = (a / 8) as i16;
    let fb = (b % 8) as i16;
    let rb = (b / 8) as i16;
    let fc = (c % 8) as i16;
    let rc = (c / 8) as i16;
    if fa == fb {
        fc == fa
    } else if ra == rb {
        rc == ra
    } else if ra - fa == rb - fb {
        rc - fc == ra - fa
    } else if ra + fa == rb + fb {
        rc + fc == ra + fa
    } else {
        false
    }
}

/// Membership test of a square in a set.
pub fn contains(b: u64, sq: u8) -> (r: bool)
    requires
        sq < 64,
    ensures
        r == bit(b, sq as int),
{
    (b & (1u64 << sq)) != 0
}

} // verus!
