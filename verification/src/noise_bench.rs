//! The search-noise benchmark's arguments, the per-position statistics it
//! prints (how far one move's score wanders across repeated searches, and
//! the gap between the two best moves), and the rounding of its suggested
//! threshold.

use vstd::prelude::*;
use vstd::relations::{sorted_by, total_ordering};

verus! {

/// The noise benchmark's arguments.
#[derive(Debug, Clone)]
pub struct NoiseBenchArgs {
    pub tt_mb: usize,
    pub depth: u32,
    pub multi_pv: usize,
    pub threads: usize,
    pub runs: usize,
    /// `default` for the built-in position list, or a path to a FEN file.
    pub fen_file: String,
}

/// `n` rounded up to a multiple of ten; zero for a non-positive `n`.
pub open spec fn spec_round_up(n: int) -> int {
    if n <= 0 {
        0
    } else {
        ((n + 9) / 10) * 10
    }
}

/// Round a suggested threshold up to the next multiple of ten, so it
/// reads as a clean tuning number.
pub fn round_up(n: i32) -> (r: i32)
    requires
        n <= i32::MAX - 9,
    ensures
        r == spec_round_up(n as int),
        n > 0 ==> r >= n && r % 10 == 0 && r - n < 10,
{
    if n <= 0 {
        0
    } else {
        ((n + 9) / 10) * 10
    }
}

/// The ascending order on `i32`.
pub open spec fn i32_le() -> spec_fn(i32, i32) -> bool {
    |a: i32, b: i32| a <= b
}

/// The values of `s` in ascending order.
pub open spec fn ascending_i32(s: Seq<i32>) -> Seq<i32> {
    s.sort_by(i32_le())
}

proof fn lemma_i32_le_total()
    ensures
        total_ordering(i32_le()),
{
}

/// The values of `v` in ascending order.
pub fn sort_i32(v: &Vec<i32>) -> (r: Vec<i32>)
    ensures
        r@ == ascending_i32(v@),
{
    broadcast use vstd::seq_lib::group_to_multiset_ensures;

    let mut r: Vec<i32> = Vec::new();
    let mut i: usize = 0;
    while i < v.len()
        invariant
            i <= v@.len(),
            sorted_by(r@, i32_le()),
            r@.to_multiset() == v@.take(i as int).to_multiset(),
        decreases v.len() - i,
    {
        let x = v[i];
        let mut pos: usize = 0;
        while pos < r.len() && r[pos] <= x
            invariant
                pos <= r@.len(),
                forall|k: int| 0 <= k < pos ==> r@[k] <= x,
            decreases r.len() - pos,
        {
            pos = pos + 1;
        }
        let ghost before = r@;
        proof {
            assert forall|k: int| pos <= k < before.len() implies x < before[k] by {
                assert(i32_le()(before[pos as int], before[k]) || pos as int == k);
            }
        }
        r.insert(pos, x);
        proof {
            before.insert_ensures(pos as int, x);
            assert forall|a: int, b: int| 0 <= a < b < r@.len() implies #[trigger] i32_le()(
                r@[a],
                r@[b],
            ) by {
                if b < pos {
                    assert(i32_le()(before[a], before[b]));
                } else if b == pos {
                } else if a < pos {
                    assert(r@[b] == before[b - 1]);
                } else if a == pos {
                    assert(r@[b] == before[b - 1]);
                } else {
                    assert(r@[a] == before[a - 1] && r@[b] == before[b - 1]);
                    assert(i32_le()(before[a - 1], before[b - 1]));
                }
            }
            assert(v@.take(i + 1) =~= v@.take(i as int).push(x));
            vstd::seq_lib::to_multiset_insert(before, pos as int, x);
            v@.take(i as int).to_multiset_ensures();
        }
        i = i + 1;
    }
    proof {
        assert(v@.take(v@.len() as int) =~= v@);
        lemma_i32_le_total();
        v@.lemma_sort_by_ensures(i32_le());
        vstd::seq_lib::lemma_sorted_unique(r@, ascending_i32(v@), i32_le());
    }
    r
}

/// The gap between the best and the second-best move's scores, 0 when the
/// second scores higher (slots of a multi-line search are not strictly
/// ordered).
pub open spec fn spec_top_two_gap(best: i32, second: i32) -> int {
    if best - second > 0 {
        best - second
    } else {
        0
    }
}

/// The gap between the two best moves of one search.
pub fn top_two_gap(best: i32, second: i32) -> (r: i32)
    requires
        best - second <= i32::MAX,
    ensures
        r == spec_top_two_gap(best, second),
{
    if best >= second {
        best - second
    } else {
        0
    }
}

/// Smallest, median (the upper one for an even count) and largest of the
/// per-search gaps; zeros when there are none.
pub open spec fn spec_gap_stats(gaps: Seq<i32>) -> (i32, i32, i32) {
    let s = ascending_i32(gaps);
    if s.len() == 0 {
        (0, 0, 0)
    } else {
        (s[0], s[(s.len() / 2) as int], s.last())
    }
}

/// Smallest, median and largest of the per-search gaps.
pub fn gap_stats(gaps: &Vec<i32>) -> (r: (i32, i32, i32))
    ensures
        r == spec_gap_stats(gaps@),
{
    let sorted = sort_i32(gaps);
    proof {
        lemma_i32_le_total();
        gaps@.lemma_sort_by_ensures(i32_le());
        broadcast use vstd::seq_lib::group_to_multiset_ensures;
        assert(sorted@.to_multiset().len() == gaps@.to_multiset().len());
    }
    let n = sorted.len();
    if n == 0 {
        (0, 0, 0)
    } else {
        (sorted[0], sorted[n / 2], sorted[n - 1])
    }
}

/// Highest and lowest score of a non-empty list.
pub open spec fn high_of(l: Seq<i32>) -> int
    decreases l.len(),
{
    if l.len() <= 1 {
        if l.len() == 1 {
            l[0] as int
        } else {
            0
        }
    } else {
        let h = high_of(l.drop_last());
        if l.last() > h {
            l.last() as int
        } else {
            h
        }
    }
}

pub open spec fn low_of(l: Seq<i32>) -> int
    decreases l.len(),
{
    if l.len() <= 1 {
        if l.len() == 1 {
            l[0] as int
        } else {
            0
        }
    } else {
        let m = low_of(l.drop_last());
        if l.last() < m {
            l.last() as int
        } else {
            m
        }
    }
}

/// The spread of one move's scores across runs.
pub open spec fn spread(l: Seq<i32>) -> int {
    high_of(l) - low_of(l)
}

/// The largest spread over the moves scored in at least two runs (0 when
/// none was).
pub open spec fn spec_same_move_range(lists: Seq<Seq<i32>>) -> int
    decreases lists.len(),
{
    if lists.len() == 0 {
        0
    } else {
        let rest = spec_same_move_range(lists.drop_last());
        let l = lists.last();
        if l.len() >= 2 && spread(l) > rest {
            spread(l)
        } else {
            rest
        }
    }
}

pub open spec fn score_lists(v: Seq<Vec<i32>>) -> Seq<Seq<i32>> {
    Seq::new(v.len(), |i: int| v[i]@)
}

proof fn lemma_high_low(l: Seq<i32>)
    requires
        l.len() >= 1,
    ensures
        low_of(l) <= high_of(l),
        i32::MIN <= low_of(l) && high_of(l) <= i32::MAX,
    decreases l.len(),
{
    if l.len() > 1 {
        lemma_high_low(l.drop_last());
    }
}

fn high_low(l: &Vec<i32>) -> (r: (i32, i32))
    requires
        l@.len() >= 1,
    ensures
        r.0 == high_of(l@),
        r.1 == low_of(l@),
{
    let mut hi = l[0];
    let mut lo = l[0];
    let mut i: usize = 1;
    while i < l.len()
        invariant
            1 <= i <= l@.len(),
            hi == high_of(l@.take(i as int)),
            lo == low_of(l@.take(i as int)),
        decreases l.len() - i,
    {
        proof {
            assert(l@.take(i + 1).drop_last() =~= l@.take(i as int));
        }
        if l[i] > hi {
            hi = l[i];
        }
        if l[i] < lo {
            lo = l[i];
        }
        i = i + 1;
    }
    proof {
        assert(l@.take(l@.len() as int) =~= l@);
    }
    (hi, lo)
}

/// The largest same-move score spread of one position: for every move
/// scored in at least two runs, its highest minus its lowest score.
pub fn same_move_range(lists: &Vec<Vec<i32>>) -> (r: i32)
    requires
        forall|i: int| 0 <= i < lists@.len() ==> spread(#[trigger] lists@[i]@) <= i32::MAX,
    ensures
        r == spec_same_move_range(score_lists(lists@)),
{
    let mut best: i32 = 0;
    let mut i: usize = 0;
    while i < lists.len()
        invariant
            i <= lists@.len(),
            forall|k: int| 0 <= k < lists@.len() ==> spread(#[trigger] lists@[k]@) <= i32::MAX,
            best == spec_same_move_range(score_lists(lists@).take(i as int)),
        decreases lists.len() - i,
    {
        proof {
            assert(score_lists(lists@).take(i + 1).drop_last() =~= score_lists(lists@).take(
                i as int,
            ));
        }
        let l = &lists[i];
        if l.len() >= 2 {
            let (hi, lo) = high_low(l);
            proof {
                lemma_high_low(l@);
                assert(spread(lists@[i as int]@) <= i32::MAX);
            }
            let range = hi - lo;
            if range > best {
                best = range;
            }
        }
        i = i + 1;
    }
    proof {
        assert(score_lists(lists@).take(lists@.len() as int) =~= score_lists(lists@));
    }
    best
}

} // verus!
