//! The settled-ply audit without the engine: the facts of each ply of a
//! line, the first-resolution walk that finds where a line's material
//! balance settles, the material classes, the aggregate statistics of an
//! audit run over many lines, and the block of classification-flip
//! examples.

use vstd::prelude::*;
use vstd::relations::{sorted_by, total_ordering};

use crate::position::Role;
use crate::text::{
    decimal, decimal_string, pad_right_aligned, plus_decimal, push_decimal, push_plus_signed,
    push_right_aligned, push_str,
};

verus! {

/// The audit's arguments.
#[derive(Debug, Clone)]
pub struct SettledAuditArgs {
    pub tt_mb: usize,
    /// One aggregate block per depth, in the order given.
    pub depths: Vec<u32>,
    pub multi_pv: usize,
    /// `default` for the built-in position list, or a path to a FEN file.
    pub fen_file: String,
    /// Max classification-flip examples printed in full per depth.
    pub examples: usize,
}

/// Length of the run of consecutive non-forcing plies that ends a
/// resolution window.
pub const QUIET_RUN_LEN: usize = 3;

/// Per-ply facts from one forward walk of a principal variation: whether
/// the ply is forcing (capture, promotion or check) and the signed
/// material event it carries, in centipawns from the root side's view.
#[derive(Debug, Clone, Copy, PartialEq, Eq, Structural)]
pub struct PlyFacts {
    pub forcing: bool,
    pub event_cp: i32,
}

/// State of the walk after ply `i - 1`: the net material so far, the ply of
/// the last forcing event and the length of the current quiet run.
pub open spec fn resolution_from(facts: Seq<PlyFacts>, i: int, net: int, last: int, quiet: int) -> (
    int,
    int,
)
    decreases facts.len() - i,
{
    if i < 0 || i >= facts.len() {
        (last, net)
    } else if facts[i].forcing {
        resolution_from(facts, i + 1, net + facts[i].event_cp, i, 0)
    } else if quiet + 1 >= QUIET_RUN_LEN {
        (last, net)
    } else {
        resolution_from(facts, i + 1, net, last, quiet + 1)
    }
}

/// Every running net the walk computes fits in an `i32`.
pub open spec fn nets_fit(facts: Seq<PlyFacts>, i: int, net: int, quiet: int) -> bool
    decreases facts.len() - i,
{
    if i < 0 || i >= facts.len() {
        true
    } else if facts[i].forcing {
        let next = net + facts[i].event_cp;
        i32::MIN <= next <= i32::MAX && nets_fit(facts, i + 1, next, 0)
    } else if quiet + 1 >= QUIET_RUN_LEN {
        true
    } else {
        nets_fit(facts, i + 1, net, quiet + 1)
    }
}

/// Where a line settles: walk forward, treat forcing plies as still
/// resolving, stop at the first run of `QUIET_RUN_LEN` consecutive quiet
/// plies. Returns the ply of the last forcing event before the stop (0 when
/// the line opens quiet) and the net material accumulated up to it.
pub fn prototype_first_resolution(facts: &[PlyFacts]) -> (r: (usize, i32))
    requires
        nets_fit(facts@, 0, 0, 0),
    ensures
        resolution_from(facts@, 0, 0, 0, 0) == (r.0 as int, r.1 as int),
{
    let mut net: i32 = 0;
    let mut last_event: usize = 0;
    let mut quiet_run: usize = 0;
    let mut ply: usize = 0;
    while ply < facts.len()
        invariant
            ply <= facts@.len(),
            quiet_run < QUIET_RUN_LEN,
            nets_fit(facts@, ply as int, net as int, quiet_run as int),
            resolution_from(facts@, 0, 0, 0, 0) == resolution_from(
                facts@,
                ply as int,
                net as int,
                last_event as int,
                quiet_run as int,
            ),
        ensures
            resolution_from(facts@, 0, 0, 0, 0) == (last_event as int, net as int),
        decreases facts.len() - ply,
    {
        let f = facts[ply];
        if f.forcing {
            net = net + f.event_cp;
            last_event = ply;
            quiet_run = 0;
        } else {
            if quiet_run + 1 >= QUIET_RUN_LEN {
                break;
            }
            quiet_run = quiet_run + 1;
        }
        ply = ply + 1;
    }
    (last_event, net)
}

/// Ply `i` completes a run of three consecutive quiet plies.
pub open spec fn quiet_stop(facts: Seq<PlyFacts>, i: int) -> bool {
    2 <= i < facts.len() && !facts[i].forcing && !facts[i - 1].forcing && !facts[i - 2].forcing
}

/// The first ply at or after `i` that completes a quiet run; the line's
/// length when none does.
pub open spec fn first_stop_from(facts: Seq<PlyFacts>, i: int) -> int
    decreases facts.len() - i,
{
    if i < 0 || i >= facts.len() {
        facts.len() as int
    } else if quiet_stop(facts, i) {
        i
    } else {
        first_stop_from(facts, i + 1)
    }
}

/// Sum of the material events of the forcing plies among the first `n`.
pub open spec fn forcing_sum(facts: Seq<PlyFacts>, n: int) -> int
    decreases n,
{
    if n <= 0 {
        0
    } else if facts[n - 1].forcing {
        forcing_sum(facts, n - 1) + facts[n - 1].event_cp
    } else {
        forcing_sum(facts, n - 1)
    }
}

/// The last forcing ply among the first `n`; 0 when there is none.
pub open spec fn last_forcing(facts: Seq<PlyFacts>, n: int) -> int
    decreases n,
{
    if n <= 0 {
        0
    } else if facts[n - 1].forcing {
        n - 1
    } else {
        last_forcing(facts, n - 1)
    }
}

/// Length of the run of quiet plies just before ply `i`.
pub open spec fn quiet_before(facts: Seq<PlyFacts>, i: int) -> int
    decreases i,
{
    if i <= 0 {
        0
    } else if facts[i - 1].forcing {
        0
    } else {
        quiet_before(facts, i - 1) + 1
    }
}

proof fn lemma_resolution_closed(facts: Seq<PlyFacts>, i: int, net: int, last: int, quiet: int)
    requires
        0 <= i <= facts.len(),
        quiet == quiet_before(facts, i),
        quiet < QUIET_RUN_LEN,
        net == forcing_sum(facts, i),
        last == last_forcing(facts, i),
    ensures
        resolution_from(facts, i, net, last, quiet) == (
            last_forcing(facts, first_stop_from(facts, i)),
            forcing_sum(facts, first_stop_from(facts, i)),
        ),
    decreases facts.len() - i,
{
    if i < facts.len() {
        assert(quiet_before(facts, i) >= 2 <==> (i >= 2 && !facts[i - 1].forcing
            && !facts[i - 2].forcing)) by {
            if i >= 1 {
                assert(quiet_before(facts, i - 1) >= 0) by {
                    lemma_quiet_before_nonneg(facts, i - 1);
                }
                if i >= 2 {
                    lemma_quiet_before_nonneg(facts, i - 2);
                }
            }
        }
        if facts[i].forcing {
            lemma_resolution_closed(facts, i + 1, net + facts[i].event_cp, i, 0);
        } else if quiet + 1 >= QUIET_RUN_LEN {
        } else {
            lemma_resolution_closed(facts, i + 1, net, last, quiet + 1);
        }
    }
}

proof fn lemma_quiet_before_nonneg(facts: Seq<PlyFacts>, i: int)
    ensures
        quiet_before(facts, i) >= 0,
    decreases i,
{
    if i > 0 {
        lemma_quiet_before_nonneg(facts, i - 1);
    }
}

/// Closed form of the first resolution: the walk stops at the first ply
/// that completes three consecutive quiet plies (or at the end of the
/// line); it returns the last forcing ply before that point (0 when there
/// is none) and the sum of the material events of the forcing plies before
/// it.
pub proof fn law_first_resolution_closed_form(facts: Seq<PlyFacts>)
    ensures
        resolution_from(facts, 0, 0, 0, 0) == (
            last_forcing(facts, first_stop_from(facts, 0)),
            forcing_sum(facts, first_stop_from(facts, 0)),
        ),
{
    lemma_resolution_closed(facts, 0, 0, 0, 0);
}

/// The ±1-pawn material class a line's net falls into.
#[derive(Debug, Clone, Copy, PartialEq, Eq, Structural)]
pub enum MatClass {
    Win,
    Neutral,
    Loss,
}

impl MatClass {
    pub fn label(self) -> (r: &'static str)
        ensures
            r@ == (match self {
                MatClass::Win => "win"@,
                MatClass::Neutral => "neutral"@,
                MatClass::Loss => "loss"@,
            }),
    {
        match self {
            MatClass::Win => "win",
            MatClass::Neutral => "neutral",
            MatClass::Loss => "loss",
        }
    }
}

/// The ascending order on `usize`.
pub open spec fn usize_le() -> spec_fn(usize, usize) -> bool {
    |a: usize, b: usize| a <= b
}

/// The values of `s` in ascending order.
pub open spec fn ascending(s: Seq<usize>) -> Seq<usize> {
    s.sort_by(usize_le())
}

proof fn lemma_usize_le_total()
    ensures
        total_ordering(usize_le()),
{
}

/// Sorting a sequence that is already in ascending order and has the
/// values of `s` gives that sequence.
proof fn lemma_ascending_unique(r: Seq<usize>, s: Seq<usize>)
    requires
        sorted_by(r, usize_le()),
        r.to_multiset() == s.to_multiset(),
    ensures
        r == ascending(s),
{
    lemma_usize_le_total();
    s.lemma_sort_by_ensures(usize_le());
    vstd::seq_lib::lemma_sorted_unique(r, ascending(s), usize_le());
}

/// The values of `v` in ascending order.
pub fn sort_ascending(v: &Vec<usize>) -> (r: Vec<usize>)
    ensures
        r@ == ascending(v@),
{
    broadcast use vstd::seq_lib::group_to_multiset_ensures;

    let mut r: Vec<usize> = Vec::new();
    let mut i: usize = 0;
    while i < v.len()
        invariant
            i <= v@.len(),
            sorted_by(r@, usize_le()),
            r@.to_multiset() == v@.take(i as int).to_multiset(),
        decreases v.len() - i,
    {
        let x = v[i];
        let mut pos: usize = 0;
        while pos < r.len() && r[pos] <= x
            invariant
                pos <= r@.len(),
                forall|k: int| 0 <= k < pos ==> r@[k] <= x,
            decreases r.len() - pos,
        {
            pos = pos + 1;
        }
        let ghost before = r@;
        proof {
            assert forall|k: int| pos <= k < before.len() implies x < before[k] by {
                assert(usize_le()(before[pos as int], before[k]) || pos as int == k);
            }
        }
        r.insert(pos, x);
        proof {
            assert(r@ == before.insert(pos as int, x));
            before.insert_ensures(pos as int, x);
            assert forall|a: int, b: int| 0 <= a < b < r@.len() implies #[trigger] usize_le()(
                r@[a],
                r@[b],
            ) by {
                if b < pos {
                    assert(usize_le()(before[a], before[b]));
                } else if b == pos {
                } else if a < pos {
                    assert(r@[b] == before[b - 1]);
                } else if a == pos {
                    assert(r@[b] == before[b - 1]);
                } else {
                    assert(r@[a] == before[a - 1] && r@[b] == before[b - 1]);
                    assert(usize_le()(before[a - 1], before[b - 1]));
                }
            }
            assert(v@.take(i + 1) =~= v@.take(i as int).push(x));
            vstd::seq_lib::to_multiset_insert(before, pos as int, x);
            v@.take(i as int).to_multiset_ensures();
            assert(v@.take(i as int).push(x).to_multiset() == v@.take(i as int).to_multiset().insert(
                x,
            ));
        }
        i = i + 1;
    }
    proof {
        assert(v@.take(v@.len() as int) =~= v@);
        lemma_ascending_unique(r@, v@);
    }
    r
}

/// Nearest-rank index of the fraction `tenths / 10` in a list of `len`
/// values, halves rounded up.
pub open spec fn rank_index(len: nat, tenths: nat) -> int {
    ((len - 1) * tenths + 5) / 10
}

/// The median, the 90th percentile and the largest of a list of values (all
/// zero for an empty list).
#[derive(Debug, Clone, Copy, PartialEq, Eq, Structural)]
pub struct Percentiles {
    pub p50: usize,
    pub p90: usize,
    pub max: usize,
}

pub open spec fn percentiles_of(vals: Seq<usize>) -> Percentiles {
    let s = ascending(vals);
    if s.len() == 0 {
        Percentiles { p50: 0, p90: 0, max: 0 }
    } else {
        Percentiles {
            p50: s[rank_index(s.len(), 5)],
            p90: s[rank_index(s.len(), 9)],
            max: s.last(),
        }
    }
}

fn rank_at(len: usize, tenths: u128) -> (r: usize)
    requires
        len > 0,
        tenths <= 10,
    ensures
        r == rank_index(len as nat, tenths as nat),
        r < len,
{
    let x: u128 = (len - 1) as u128;
    assert(x * tenths <= x * 10) by (nonlinear_arith)
        requires
            tenths <= 10,
    ;
    let idx = (x * tenths + 5) / 10;
    assert(idx <= x) by (nonlinear_arith)
        requires
            idx == (x * tenths + 5) / 10,
            x * tenths <= x * 10,
    ;
    idx as usize
}

/// The median, the 90th percentile and the largest of `vals`.
pub fn percentiles(vals: &Vec<usize>) -> (r: Percentiles)
    ensures
        r == percentiles_of(vals@),
{
    let sorted = sort_ascending(vals);
    proof {
        lemma_usize_le_total();
        vals@.lemma_sort_by_ensures(usize_le());
        broadcast use vstd::seq_lib::group_to_multiset_ensures;
        assert(sorted@.to_multiset().len() == vals@.to_multiset().len());
    }
    let n = sorted.len();
    if n == 0 {
        Percentiles { p50: 0, p90: 0, max: 0 }
    } else {
        let i50 = rank_at(n, 5);
        let i90 = rank_at(n, 9);
        Percentiles { p50: sorted[i50], p90: sorted[i90], max: sorted[n - 1] }
    }
}


/// Everything recorded about one line of an audit run. Deltas and evals are
/// from the root side's view; `settled` is the settled ply the search
/// reported (`None` when it left no traces); `tactic_ply` is the ply of the
/// key move when a tactic was named in the line.
#[derive(Debug, Clone, Copy, PartialEq, Eq, Structural)]
pub struct LineStat {
    pub pv_len: usize,
    pub settled: Option<usize>,
    pub cur_delta: i32,
    pub proto_settled: usize,
    pub proto_delta: i32,
    pub full_delta: i32,
    pub tactic_ply: Option<usize>,
    pub eval_cur: Option<i32>,
    pub eval_proto: Option<i32>,
    pub score: i32,
    pub has_events: bool,
}

/// The ±1-pawn class of a material delta, `win_cp` being the threshold.
pub open spec fn class_of(delta_cp: i32, win_cp: i32) -> MatClass {
    if delta_cp >= win_cp {
        MatClass::Win
    } else if delta_cp <= -win_cp {
        MatClass::Loss
    } else {
        MatClass::Neutral
    }
}

/// The ±1-pawn class of a material delta.
pub fn classify(delta_cp: i32, win_cp: i32) -> (r: MatClass)
    requires
        win_cp > 0,
    ensures
        r == class_of(delta_cp, win_cp),
{
    if delta_cp >= win_cp {
        MatClass::Win
    } else if delta_cp <= -win_cp {
        MatClass::Loss
    } else {
        MatClass::Neutral
    }
}

/// How many lines of `s` satisfy `p`.
pub open spec fn count_where(s: Seq<LineStat>, p: spec_fn(LineStat) -> bool) -> nat
    decreases s.len(),
{
    if s.len() == 0 {
        0
    } else {
        count_where(s.drop_last(), p) + if p(s.last()) {
            1nat
        } else {
            0nat
        }
    }
}

proof fn lemma_count_bounded(s: Seq<LineStat>, p: spec_fn(LineStat) -> bool)
    ensures
        count_where(s, p) <= s.len(),
    decreases s.len(),
{
    if s.len() > 0 {
        lemma_count_bounded(s.drop_last(), p);
    }
}

proof fn lemma_take_step(s: Seq<LineStat>, i: int)
    requires
        0 <= i < s.len(),
    ensures
        s.take(i + 1).drop_last() == s.take(i),
        s.take(i + 1).last() == s[i],
{
    assert(s.take(i + 1).drop_last() =~= s.take(i));
}

/// Distance of a settled ply from the leaf of a line of `pv_len` plies.
pub open spec fn leaf_distance(pv_len: usize, settled: usize) -> int {
    let last = if pv_len >= 1 { pv_len - 1 } else { 0 };
    if last >= settled { last - settled } else { 0 }
}

pub open spec fn settled_within(lo: int, hi: int) -> spec_fn(LineStat) -> bool {
    |l: LineStat| l.settled matches Some(i) && lo <= leaf_distance(l.pv_len, i) <= hi
}

/// Where the search's settled ply lands, as distance from the leaf: at
/// the leaf, 1, 2, 3 to 5, or 6 and more plies before it; lines without
/// traces; and lines settled at the root.
#[derive(Debug, Clone, Copy, PartialEq, Eq, Structural)]
pub struct SettledDistribution {
    pub leaf: usize,
    pub one: usize,
    pub two: usize,
    pub three_to_five: usize,
    pub far: usize,
    pub none: usize,
    pub at_ply_zero: usize,
}

pub open spec fn settled_distribution_of(s: Seq<LineStat>) -> SettledDistribution {
    SettledDistribution {
        leaf: count_where(s, settled_within(0, 0)) as usize,
        one: count_where(s, settled_within(1, 1)) as usize,
        two: count_where(s, settled_within(2, 2)) as usize,
        three_to_five: count_where(s, settled_within(3, 5)) as usize,
        far: count_where(s, settled_within(6, usize::MAX as int)) as usize,
        none: count_where(s, |l: LineStat| l.settled is None) as usize,
        at_ply_zero: count_where(s, |l: LineStat| l.settled == Some(0usize)) as usize,
    }
}

fn settled_distribution(stats: &[LineStat]) -> (r: SettledDistribution)
    ensures
        r == settled_distribution_of(stats@),
{
    let mut d = SettledDistribution {
        leaf: 0,
        one: 0,
        two: 0,
        three_to_five: 0,
        far: 0,
        none: 0,
        at_ply_zero: 0,
    };
    let mut i: usize = 0;
    while i < stats.len()
        invariant
            i <= stats@.len(),
            d == settled_distribution_of(stats@.take(i as int)),
        decreases stats.len() - i,
    {
        let s = stats[i];
        proof {
            lemma_take_step(stats@, i as int);
            let t = stats@.take(i as int);
            lemma_count_bounded(t, settled_within(0, 0));
            lemma_count_bounded(t, settled_within(1, 1));
            lemma_count_bounded(t, settled_within(2, 2));
            lemma_count_bounded(t, settled_within(3, 5));
            lemma_count_bounded(t, settled_within(6, usize::MAX as int));
            lemma_count_bounded(t, |l: LineStat| l.settled is None);
            lemma_count_bounded(t, |l: LineStat| l.settled == Some(0usize));
        }
        match s.settled {
            None => {
                d.none = d.none + 1;
            },
            Some(k) => {
                if k == 0 {
                    d.at_ply_zero = d.at_ply_zero + 1;
                }
                let last = if s.pv_len >= 1 { s.pv_len - 1 } else { 0 };
                let dist = if last >= k { last - k } else { 0 };
                if dist == 0 {
                    d.leaf = d.leaf + 1;
                } else if dist == 1 {
                    d.one = d.one + 1;
                } else if dist == 2 {
                    d.two = d.two + 1;
                } else if dist <= 5 {
                    d.three_to_five = d.three_to_five + 1;
                } else {
                    d.far = d.far + 1;
                }
            },
        }
        i = i + 1;
    }
    proof {
        assert(stats@.take(stats@.len() as int) =~= stats@);
    }
    d
}

/// Which material delta of a line to classify.
#[derive(Debug, Clone, Copy, PartialEq, Eq, Structural)]
pub enum DeltaKind {
    /// Under the search's settled cap.
    Current,
    /// Under the first-resolution walk.
    Prototype,
    /// Over the whole line.
    FullLine,
}

pub open spec fn delta_of(l: LineStat, k: DeltaKind) -> i32 {
    match k {
        DeltaKind::Current => l.cur_delta,
        DeltaKind::Prototype => l.proto_delta,
        DeltaKind::FullLine => l.full_delta,
    }
}

pub open spec fn in_class(k: DeltaKind, c: MatClass, win_cp: i32) -> spec_fn(LineStat) -> bool {
    |l: LineStat| class_of(delta_of(l, k), win_cp) == c
}

/// How many lines fall in each ±1-pawn class.
#[derive(Debug, Clone, Copy, PartialEq, Eq, Structural)]
pub struct ClassCounts {
    pub win: usize,
    pub neutral: usize,
    pub loss: usize,
}

pub open spec fn class_counts_of(s: Seq<LineStat>, k: DeltaKind, win_cp: i32) -> ClassCounts {
    ClassCounts {
        win: count_where(s, in_class(k, MatClass::Win, win_cp)) as usize,
        neutral: count_where(s, in_class(k, MatClass::Neutral, win_cp)) as usize,
        loss: count_where(s, in_class(k, MatClass::Loss, win_cp)) as usize,
    }
}

fn class_counts(stats: &[LineStat], k: DeltaKind, win_cp: i32) -> (r: ClassCounts)
    requires
        win_cp > 0,
    ensures
        r == class_counts_of(stats@, k, win_cp),
{
    let mut c = ClassCounts { win: 0, neutral: 0, loss: 0 };
    let mut i: usize = 0;
    while i < stats.len()
        invariant
            i <= stats@.len(),
            win_cp > 0,
            c == class_counts_of(stats@.take(i as int), k, win_cp),
        decreases stats.len() - i,
    {
        let s = stats[i];
        proof {
            lemma_take_step(stats@, i as int);
            let t = stats@.take(i as int);
            lemma_count_bounded(t, in_class(k, MatClass::Win, win_cp));
            lemma_count_bounded(t, in_class(k, MatClass::Neutral, win_cp));
            lemma_count_bounded(t, in_class(k, MatClass::Loss, win_cp));
        }
        let delta = match k {
            DeltaKind::Current => s.cur_delta,
            DeltaKind::Prototype => s.proto_delta,
            DeltaKind::FullLine => s.full_delta,
        };
        match classify(delta, win_cp) {
            MatClass::Win => c.win = c.win + 1,
            MatClass::Neutral => c.neutral = c.neutral + 1,
            MatClass::Loss => c.loss = c.loss + 1,
        }
        i = i + 1;
    }
    proof {
        assert(stats@.take(stats@.len() as int) =~= stats@);
    }
    c
}

pub open spec fn flips_class(win_cp: i32) -> spec_fn(LineStat) -> bool {
    |l: LineStat| class_of(l.cur_delta, win_cp) != class_of(l.proto_delta, win_cp)
}

pub open spec fn current_is_full() -> spec_fn(LineStat) -> bool {
    |l: LineStat| l.cur_delta == l.full_delta
}

pub open spec fn proto_at_root() -> spec_fn(LineStat) -> bool {
    |l: LineStat| l.proto_settled == 0
}

/// Lines whose class differs between the current cap and the prototype;
/// lines whose current delta is the full-line delta; lines whose prototype
/// settles at the root.
fn line_counts(stats: &[LineStat], win_cp: i32) -> (r: (usize, usize, usize))
    requires
        win_cp > 0,
    ensures
        r.0 == count_where(stats@, flips_class(win_cp)),
        r.1 == count_where(stats@, current_is_full()),
        r.2 == count_where(stats@, proto_at_root()),
{
    let mut flipped: usize = 0;
    let mut same: usize = 0;
    let mut at_root: usize = 0;
    let mut i: usize = 0;
    while i < stats.len()
        invariant
            i <= stats@.len(),
            win_cp > 0,
            flipped == count_where(stats@.take(i as int), flips_class(win_cp)),
            same == count_where(stats@.take(i as int), current_is_full()),
            at_root == count_where(stats@.take(i as int), proto_at_root()),
        decreases stats.len() - i,
    {
        let s = stats[i];
        proof {
            lemma_take_step(stats@, i as int);
            let t = stats@.take(i as int);
            lemma_count_bounded(t, flips_class(win_cp));
            lemma_count_bounded(t, current_is_full());
            lemma_count_bounded(t, proto_at_root());
        }
        if classify(s.cur_delta, win_cp) != classify(s.proto_delta, win_cp) {
            flipped = flipped + 1;
        }
        if s.cur_delta == s.full_delta {
            same = same + 1;
        }
        if s.proto_settled == 0 {
            at_root = at_root + 1;
        }
        i = i + 1;
    }
    proof {
        assert(stats@.take(stats@.len() as int) =~= stats@);
    }
    (flipped, same, at_root)
}

/// `|a - b|`.
pub open spec fn abs_gap(a: i32, b: i32) -> usize {
    (if a >= b {
        a - b
    } else {
        b - a
    }) as usize
}

fn abs_gap_exec(a: i32, b: i32) -> (r: usize)
    ensures
        r == abs_gap(a, b),
{
    let d: i64 = if a >= b {
        a as i64 - b as i64
    } else {
        b as i64 - a as i64
    };
    assert(d <= u32::MAX);
    d as usize
}

/// A search score is a mate score: its size reaches `mate_bound`.
pub open spec fn is_mate_score(score: i32, mate_bound: i32) -> bool {
    (if score >= 0 {
        score as int
    } else {
        -score
    }) >= mate_bound
}

/// `a - b`, or 0 when `b` is larger.
pub open spec fn sat_sub(a: usize, b: usize) -> usize {
    if a >= b {
        (a - b) as usize
    } else {
        0
    }
}

/// The ply the search's settled cap lands on, clamped to the line's last
/// ply (the last ply when the line has no traces).
pub open spec fn current_ply(l: LineStat) -> usize {
    let last = (l.pv_len - 1) as usize;
    match l.settled {
        Some(i) => if i <= last {
            i
        } else {
            last
        },
        None => last,
    }
}

/// A per-line measure the aggregate takes percentiles of.
#[derive(Debug, Clone, Copy, PartialEq, Eq, Structural)]
pub enum Measure {
    /// Length of the line.
    PvLen,
    /// Ply the first-resolution walk settles on.
    ProtoSettled,
    /// Gap between the evals read at the two settled plies, on lines with
    /// both reads.
    EvalGapAll,
    /// The same gap, on lines that carry a material event.
    EvalGapEvents,
    /// Gap between the search score and the eval at the current settled
    /// ply, on tactic-labelled lines that are not mates.
    ScoreGapCurrent,
    /// The same gap, at the prototype's settled ply.
    ScoreGapPrototype,
    /// Plies the current settled ply lies past the tactic's key move, on
    /// tactic-labelled lines.
    OracleCurrent,
    /// Plies the prototype's settled ply lies past the tactic's key move.
    OraclePrototype,
}

pub open spec fn measured(m: Measure, mate_bound: i32, l: LineStat) -> bool {
    match m {
        Measure::PvLen | Measure::ProtoSettled => true,
        Measure::EvalGapAll => l.eval_cur is Some && l.eval_proto is Some,
        Measure::EvalGapEvents => l.has_events && l.eval_cur is Some && l.eval_proto is Some,
        Measure::ScoreGapCurrent | Measure::ScoreGapPrototype => {
            &&& l.tactic_ply is Some
            &&& !is_mate_score(l.score, mate_bound)
            &&& l.eval_cur is Some
            &&& l.eval_proto is Some
        },
        Measure::OracleCurrent | Measure::OraclePrototype => l.tactic_ply is Some,
    }
}

pub open spec fn measure_value(m: Measure, l: LineStat) -> usize {
    match m {
        Measure::PvLen => l.pv_len,
        Measure::ProtoSettled => l.proto_settled,
        Measure::EvalGapAll | Measure::EvalGapEvents => abs_gap(
            l.eval_cur.unwrap(),
            l.eval_proto.unwrap(),
        ),
        Measure::ScoreGapCurrent => abs_gap(l.score, l.eval_cur.unwrap()),
        Measure::ScoreGapPrototype => abs_gap(l.score, l.eval_proto.unwrap()),
        Measure::OracleCurrent => sat_sub(current_ply(l), l.tactic_ply.unwrap()),
        Measure::OraclePrototype => sat_sub(l.proto_settled, l.tactic_ply.unwrap()),
    }
}

/// The values of a measure over the lines it applies to, in line order.
pub open spec fn measures(s: Seq<LineStat>, m: Measure, mate_bound: i32) -> Seq<usize>
    decreases s.len(),
{
    if s.len() == 0 {
        Seq::empty()
    } else {
        let rest = measures(s.drop_last(), m, mate_bound);
        if measured(m, mate_bound, s.last()) {
            rest.push(measure_value(m, s.last()))
        } else {
            rest
        }
    }
}

/// The audit's lines can be measured: a tactic-labelled line has at least
/// one ply and a score whose size is an `i32`.
pub open spec fn lines_ok(s: Seq<LineStat>) -> bool {
    forall|i: int|
        0 <= i < s.len() && (#[trigger] s[i]).tactic_ply is Some ==> s[i].pv_len >= 1 && s[i].score
            != i32::MIN
}

fn collect_measure(stats: &[LineStat], m: Measure, mate_bound: i32) -> (r: Vec<usize>)
    requires
        lines_ok(stats@),
    ensures
        r@ == measures(stats@, m, mate_bound),
{
    let mut out: Vec<usize> = Vec::new();
    let mut i: usize = 0;
    while i < stats.len()
        invariant
            i <= stats@.len(),
            lines_ok(stats@),
            out@ == measures(stats@.take(i as int), m, mate_bound),
        decreases stats.len() - i,
    {
        let l = stats[i];
        proof {
            lemma_take_step(stats@, i as int);
        }
        let both = l.eval_cur.is_some() && l.eval_proto.is_some();
        match m {
            Measure::PvLen => out.push(l.pv_len),
            Measure::ProtoSettled => out.push(l.proto_settled),
            Measure::EvalGapAll | Measure::EvalGapEvents => {
                if both && (m == Measure::EvalGapAll || l.has_events) {
                    out.push(abs_gap_exec(l.eval_cur.unwrap(), l.eval_proto.unwrap()));
                }
            },
            Measure::ScoreGapCurrent | Measure::ScoreGapPrototype => {
                if l.tactic_ply.is_some() {
                    assert(l.score != i32::MIN);
                    let size: i32 = if l.score >= 0 { l.score } else { -l.score };
                    if size < mate_bound && both {
                        let read = if m == Measure::ScoreGapCurrent {
                            l.eval_cur.unwrap()
                        } else {
                            l.eval_proto.unwrap()
                        };
                        out.push(abs_gap_exec(l.score, read));
                    }
                }
            },
            Measure::OracleCurrent | Measure::OraclePrototype => {
                match l.tactic_ply {
                    Some(hit) => {
                        let at = if m == Measure::OraclePrototype {
                            l.proto_settled
                        } else {
                            let last = l.pv_len - 1;
                            match l.settled {
                                Some(k) => if k <= last {
                                    k
                                } else {
                                    last
                                },
                                None => last,
                            }
                        };
                        out.push(if at >= hit { at - hit } else { 0 });
                    },
                    None => {},
                }
            },
        }
        i = i + 1;
    }
    proof {
        assert(stats@.take(stats@.len() as int) =~= stats@);
    }
    out
}

/// The tactic-detector oracle over tactic-labelled lines: how many there
/// are, and how many plies past the key move each settled notion lands.
#[derive(Debug, Clone, Copy, PartialEq, Eq, Structural)]
pub struct OracleStats {
    pub lines: usize,
    pub current: Percentiles,
    pub prototype: Percentiles,
}

/// The aggregate block of an audit run over `lines` lines.
#[derive(Debug, Clone, Copy, PartialEq, Eq, Structural)]
pub struct AggregateStats {
    pub lines: usize,
    pub pv_len: Percentiles,
    pub settled: SettledDistribution,
    pub proto_settled: Percentiles,
    pub proto_at_zero: usize,
    pub class_current: ClassCounts,
    pub class_prototype: ClassCounts,
    pub class_full: ClassCounts,
    pub flipped: usize,
    pub current_eq_full: usize,
    pub eval_gap_all: Percentiles,
    pub eval_gap_all_n: usize,
    pub eval_gap_events: Percentiles,
    pub eval_gap_events_n: usize,
    pub score_gap_n: usize,
    pub score_gap_current: Percentiles,
    pub score_gap_prototype: Percentiles,
    /// `None` when no line is tactic-labelled.
    pub oracle: Option<OracleStats>,
}

pub open spec fn aggregate_of(s: Seq<LineStat>, win_cp: i32, mate_bound: i32) -> AggregateStats {
    let oracle_n = measures(s, Measure::OracleCurrent, mate_bound).len();
    AggregateStats {
        lines: s.len() as usize,
        pv_len: percentiles_of(measures(s, Measure::PvLen, mate_bound)),
        settled: settled_distribution_of(s),
        proto_settled: percentiles_of(measures(s, Measure::ProtoSettled, mate_bound)),
        proto_at_zero: count_where(s, proto_at_root()) as usize,
        class_current: class_counts_of(s, DeltaKind::Current, win_cp),
        class_prototype: class_counts_of(s, DeltaKind::Prototype, win_cp),
        class_full: class_counts_of(s, DeltaKind::FullLine, win_cp),
        flipped: count_where(s, flips_class(win_cp)) as usize,
        current_eq_full: count_where(s, current_is_full()) as usize,
        eval_gap_all: percentiles_of(measures(s, Measure::EvalGapAll, mate_bound)),
        eval_gap_all_n: measures(s, Measure::EvalGapAll, mate_bound).len() as usize,
        eval_gap_events: percentiles_of(measures(s, Measure::EvalGapEvents, mate_bound)),
        eval_gap_events_n: measures(s, Measure::EvalGapEvents, mate_bound).len() as usize,
        score_gap_n: measures(s, Measure::ScoreGapCurrent, mate_bound).len() as usize,
        score_gap_current: percentiles_of(measures(s, Measure::ScoreGapCurrent, mate_bound)),
        score_gap_prototype: percentiles_of(measures(s, Measure::ScoreGapPrototype, mate_bound)),
        oracle: if oracle_n == 0 {
            None
        } else {
            Some(
                OracleStats {
                    lines: oracle_n as usize,
                    current: percentiles_of(measures(s, Measure::OracleCurrent, mate_bound)),
                    prototype: percentiles_of(measures(s, Measure::OraclePrototype, mate_bound)),
                },
            )
        },
    }
}

/// The aggregate block of an audit run: `None` when there are no lines;
/// otherwise line-length percentiles, where the search's settled ply lands,
/// where the first-resolution walk settles, the ±1-pawn classes of the
/// three material deltas (`win_cp` being the class threshold) and how often
/// they disagree, the gaps between the two eval read points and between
/// the search score and each read point (lines whose score reaches
/// `mate_bound` in size are mates and left out), and the tactic-detector
/// oracle.
pub fn aggregate(stats: &[LineStat], win_cp: i32, mate_bound: i32) -> (r: Option<AggregateStats>)
    requires
        win_cp > 0,
        lines_ok(stats@),
    ensures
        r == if stats@.len() == 0 {
            None
        } else {
            Some(aggregate_of(stats@, win_cp, mate_bound))
        },
{
    if stats.len() == 0 {
        return None;
    }
    let (flipped, current_eq_full, proto_at_zero) = line_counts(stats, win_cp);
    let eval_all = collect_measure(stats, Measure::EvalGapAll, mate_bound);
    let eval_events = collect_measure(stats, Measure::EvalGapEvents, mate_bound);
    let score_cur = collect_measure(stats, Measure::ScoreGapCurrent, mate_bound);
    let oracle_cur = collect_measure(stats, Measure::OracleCurrent, mate_bound);
    let oracle = if oracle_cur.len() == 0 {
        None
    } else {
        Some(
            OracleStats {
                lines: oracle_cur.len(),
                current: percentiles(&oracle_cur),
                prototype: percentiles(
                    &collect_measure(stats, Measure::OraclePrototype, mate_bound),
                ),
            },
        )
    };
    Some(
        AggregateStats {
            lines: stats.len(),
            pv_len: percentiles(&collect_measure(stats, Measure::PvLen, mate_bound)),
            settled: settled_distribution(stats),
            proto_settled: percentiles(&collect_measure(stats, Measure::ProtoSettled, mate_bound)),
            proto_at_zero,
            class_current: class_counts(stats, DeltaKind::Current, win_cp),
            class_prototype: class_counts(stats, DeltaKind::Prototype, win_cp),
            class_full: class_counts(stats, DeltaKind::FullLine, win_cp),
            flipped,
            current_eq_full,
            eval_gap_all: percentiles(&eval_all),
            eval_gap_all_n: eval_all.len(),
            eval_gap_events: percentiles(&eval_events),
            eval_gap_events_n: eval_events.len(),
            score_gap_n: score_cur.len(),
            score_gap_current: percentiles(&score_cur),
            score_gap_prototype: percentiles(
                &collect_measure(stats, Measure::ScoreGapPrototype, mate_bound),
            ),
            oracle,
        },
    )
}

/// A line's class, material delta and settled ply under one settled notion.
#[derive(Debug, Clone, Copy, PartialEq, Eq, Structural)]
pub struct FlipSide {
    pub class: MatClass,
    pub delta_cp: i32,
    pub settled: usize,
}

/// A line whose ±1-pawn class differs between the current cap and the
/// prototype: its position (1-based) and FEN, its slot in the MultiPV, the
/// start of its moves in SAN, and what each notion makes of it.
#[derive(Debug, Clone)]
pub struct FlipExample {
    pub pos_idx: usize,
    pub fen: String,
    pub slot: usize,
    pub pv_san: String,
    pub cur: FlipSide,
    pub proto: FlipSide,
}

pub open spec fn class_label(c: MatClass) -> Seq<char> {
    match c {
        MatClass::Win => "win"@,
        MatClass::Neutral => "neutral"@,
        MatClass::Loss => "loss"@,
    }
}

/// One notion's verdict on a flip example: class, signed delta, settled
/// ply.
pub open spec fn flip_side_text(f: FlipSide) -> Seq<char> {
    class_label(f.class) + "("@ + plus_decimal(f.delta_cp as int) + " cp @ply "@ + decimal(
        f.settled as nat,
    ) + ")"@
}

/// The start of a flip example's first line: position and slot.
pub open spec fn flip_head_text(f: FlipExample) -> Seq<char> {
    "    pos "@ + pad_right_aligned(decimal(f.pos_idx as nat), 2) + " slot "@ + pad_right_aligned(
        decimal(f.slot as nat),
        2,
    ) + ": current "@
}

/// The three lines printed for one flip example.
pub open spec fn flip_text(f: FlipExample) -> Seq<char> {
    flip_head_text(f) + flip_side_text(f.cur) + " -> prototype "@ + flip_side_text(f.proto)
        + "\n"@ + "      fen: "@ + f.fen@ + "\n"@ + "      pv:  "@ + f.pv_san@ + "\n"@
}

/// The texts of the examples of `flips`, in order.
pub open spec fn flips_body(flips: Seq<FlipExample>) -> Seq<char>
    decreases flips.len(),
{
    if flips.len() == 0 {
        Seq::empty()
    } else {
        flips_body(flips.drop_last()) + flip_text(flips.last())
    }
}

/// The flip examples block: nothing without examples or with `max` 0;
/// otherwise a blank line, a heading with how many of how many are shown,
/// and the first `max` examples.
pub open spec fn flips_text(flips: Seq<FlipExample>, max: nat) -> Seq<char> {
    if flips.len() == 0 || max == 0 {
        Seq::empty()
    } else {
        let shown = if max < flips.len() {
            max
        } else {
            flips.len()
        };
        "\n  classification-flip examples ("@ + decimal(shown) + " of "@ + decimal(flips.len())
            + "):\n"@ + flips_body(flips.take(shown as int))
    }
}

fn push_flip_side(out: &mut String, f: FlipSide)
    ensures
        final(out)@ == old(out)@ + flip_side_text(f),
{
    push_str(out, f.class.label());
    push_str(out, "(");
    push_plus_signed(out, f.delta_cp as i64);
    push_str(out, " cp @ply ");
    push_decimal(out, f.settled as u64);
    push_str(out, ")");
    proof {
        assert(out@ =~= old(out)@ + flip_side_text(f));
    }
}

fn push_flip_head(out: &mut String, f: &FlipExample)
    ensures
        final(out)@ == old(out)@ + flip_head_text(*f),
{
    push_str(out, "    pos ");
    push_right_aligned(out, decimal_string(f.pos_idx as u64).as_str(), 2);
    push_str(out, " slot ");
    push_right_aligned(out, decimal_string(f.slot as u64).as_str(), 2);
    push_str(out, ": current ");
    proof {
        assert(out@ =~= old(out)@ + flip_head_text(*f));
    }
}

fn push_flip(out: &mut String, f: &FlipExample)
    ensures
        final(out)@ == old(out)@ + flip_text(*f),
{
    push_flip_head(out, f);
    push_flip_side(out, f.cur);
    push_str(out, " -> prototype ");
    push_flip_side(out, f.proto);
    let ghost b = out@;
    push_str(out, "\n");
    push_str(out, "      fen: ");
    push_str(out, f.fen.as_str());
    push_str(out, "\n");
    push_str(out, "      pv:  ");
    push_str(out, f.pv_san.as_str());
    push_str(out, "\n");
    proof {
        assert(b =~= old(out)@ + flip_head_text(*f) + flip_side_text(f.cur) + " -> prototype "@
            + flip_side_text(f.proto));
        assert(out@ =~= old(out)@ + flip_text(*f));
    }
}

/// The flip examples block printed after an audit's aggregate.
pub fn render_flips(flips: &[FlipExample], max: usize) -> (r: String)
    ensures
        r@ == flips_text(flips@, max as nat),
{
    let mut out = String::new();
    if flips.len() == 0 || max == 0 {
        return out;
    }
    let shown = if max < flips.len() { max } else { flips.len() };
    push_str(&mut out, "\n  classification-flip examples (");
    push_decimal(&mut out, shown as u64);
    push_str(&mut out, " of ");
    push_decimal(&mut out, flips.len() as u64);
    push_str(&mut out, "):\n");
    let ghost head = out@;
    let mut i: usize = 0;
    while i < shown
        invariant
            i <= shown <= flips@.len(),
            out@ == head + flips_body(flips@.take(i as int)),
        decreases shown - i,
    {
        push_flip(&mut out, &flips[i]);
        proof {
            assert(flips@.take(i + 1).drop_last() =~= flips@.take(i as int));
            assert(out@ =~= head + flips_body(flips@.take(i + 1)));
        }
        i = i + 1;
    }
    proof {
        assert(out@ =~= flips_text(flips@, max as nat));
    }
    out
}

/// Standard point value in material centipawns (pawn 100, minor pieces
/// 300, rook 500, queen 900, king 0).
pub open spec fn standard_value(role: Role) -> i32 {
    match role {
        Role::Pawn => 100,
        Role::Knight | Role::Bishop => 300,
        Role::Rook => 500,
        Role::Queen => 900,
        Role::King => 0,
    }
}

/// Standard point value of a piece in material centipawns.
pub fn standard_piece_value_cp(role: Role) -> (r: i32)
    ensures
        r == standard_value(role),
{
    match role {
        Role::Pawn => 100,
        Role::Knight | Role::Bishop => 300,
        Role::Rook => 500,
        Role::Queen => 900,
        Role::King => 0,
    }
}

/// The inclusive ply the material walk of a line of `pv_len` plies is
/// capped at: the reported settled ply when it lies in the line, the last
/// ply otherwise (0 for an empty line).
pub open spec fn spec_current_cap(pv_len: usize, settled: Option<usize>) -> usize {
    match settled {
        Some(i) if i < pv_len => i,
        _ => if pv_len >= 1 {
            (pv_len - 1) as usize
        } else {
            0
        },
    }
}

/// The inclusive ply the material walk of a line is capped at.
pub fn current_cap(pv_len: usize, settled: Option<usize>) -> (r: usize)
    ensures
        r == spec_current_cap(pv_len, settled),
{
    match settled {
        Some(i) if i < pv_len => i,
        _ => if pv_len >= 1 {
            pv_len - 1
        } else {
            0
        },
    }
}

/// The facts of one ply of a line: forcing when it captures, promotes or
/// gives check; its material event is the captured piece's value plus, for
/// a promotion, the new piece's value over the pawn's, counted for the
/// root side when the mover is the root side and against it otherwise.
pub open spec fn spec_ply_facts(
    mover_is_root: bool,
    captured: Option<Role>,
    promoted_to: Option<Role>,
    gives_check: bool,
) -> PlyFacts {
    let sign: int = if mover_is_root {
        1
    } else {
        -1
    };
    let taken: int = match captured {
        Some(r) => standard_value(r) as int,
        None => 0,
    };
    let upgrade: int = match promoted_to {
        Some(r) => standard_value(r) - 100,
        None => 0,
    };
    PlyFacts {
        forcing: captured is Some || promoted_to is Some || gives_check,
        event_cp: (sign * taken + sign * upgrade) as i32,
    }
}

/// The facts of one ply, given who moves, what it captures (`None` for
/// castling), what it promotes to, and whether it gives check.
pub fn ply_facts(
    mover_is_root: bool,
    captured: Option<Role>,
    promoted_to: Option<Role>,
    gives_check: bool,
) -> (r: PlyFacts)
    ensures
        r == spec_ply_facts(mover_is_root, captured, promoted_to, gives_check),
{
    let sign: i32 = if mover_is_root { 1 } else { -1 };
    let mut event_cp: i32 = 0;
    match captured {
        Some(r) => {
            event_cp = event_cp + sign * standard_piece_value_cp(r);
        },
        None => {},
    }
    match promoted_to {
        Some(r) => {
            event_cp = event_cp + sign * (standard_piece_value_cp(r) - standard_piece_value_cp(
                Role::Pawn,
            ));
        },
        None => {},
    }
    PlyFacts {
        forcing: captured.is_some() || promoted_to.is_some() || gives_check,
        event_cp,
    }
}

} // verus!
