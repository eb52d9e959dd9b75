//! Text rendering of the attacks report: every (attacker, enemy target)
//! pair of each side, with counts and the SEE verdict.

use vstd::prelude::*;

use crate::alignments_view::{classical_points, spec_classical_points};
use crate::analysis::{attackers_of, lemma_count_bound, spec_attackers_of};
use crate::bitboard::{bit, contains, popcount, square_count};
use crate::piece_fmt::{piece_label, piece_type_name, spec_piece_label, spec_piece_type_name};
use crate::position::{Board, Color, Position, Role, Setup};
use crate::see::{see, spec_see};
use crate::square_view::{file_of, rank_of};
use crate::text::{
    decimal, decimal_string, pad_left_aligned, pad_right_aligned, push_decimal,
    push_left_aligned, push_right_aligned, push_str,
};
use crate::threats::{color_name, spec_color_name, square_name, square_text};

verus! {

#[derive(Debug, Clone)]
pub struct AttacksView {
    pub white: SideAttacks,
    pub black: SideAttacks,
}

#[derive(Debug, Clone)]
pub struct SideAttacks {
    pub side: String,
    /// Every pair of one of this side's pieces and an enemy piece it hits.
    pub attacks: Vec<AttackRecord>,
}

#[derive(Debug, Clone)]
pub struct AttackRecord {
    /// e.g. "Qc4".
    pub attacker: String,
    pub attacker_square: String,
    pub attacker_kind: String,
    /// e.g. "qe6".
    pub target: String,
    pub target_square: String,
    pub target_kind: String,
    pub target_points: u8,
    /// Enemy defenders of the target.
    pub defender_count: u32,
    /// Our attackers of the target.
    pub attacker_count: u32,
    /// SEE verdict with `attacker` capturing first.
    pub see_verdict: String,
}

/// The column heading of a side's table.
pub open spec fn table_heading() -> Seq<char> {
    "  from    → to    att/def  SEE             \n"@
}

pub open spec fn record_line(r: AttackRecord) -> Seq<char> {
    "  "@ + pad_left_aligned(r.attacker@, 6) + "  → "@ + pad_left_aligned(r.target@, 4) + "  "@
        + pad_right_aligned(decimal(r.attacker_count as nat), 3) + "/"@ + pad_left_aligned(
        decimal(r.defender_count as nat),
        3,
    ) + "  "@ + pad_left_aligned(r.see_verdict@, 16) + " (target: "@ + decimal(
        r.target_points as nat,
    ) + " pts)\n"@
}

pub open spec fn record_lines(v: Seq<AttackRecord>, k: int) -> Seq<char>
    decreases k,
{
    if k <= 0 {
        Seq::empty()
    } else {
        record_lines(v, k - 1) + record_line(v[k - 1])
    }
}

/// One side: "(none)", or the heading and one line per pair; then a
/// blank line.
pub open spec fn side_text(s: SideAttacks) -> Seq<char> {
    if s.attacks@.len() == 0 {
        s.side@ + " attacks: (none)\n\n"@
    } else {
        s.side@ + " attacks on enemy pieces:\n"@ + table_heading() + record_lines(
            s.attacks@,
            s.attacks@.len() as int,
        ) + "\n"@
    }
}

pub open spec fn view_text(v: AttacksView) -> Seq<char> {
    side_text(v.white) + side_text(v.black)
}

fn push_record(out: &mut String, r: &AttackRecord)
    ensures
        final(out)@ == old(out)@ + record_line(*r),
{
    push_str(out, "  ");
    push_left_aligned(out, r.attacker.as_str(), 6);
    push_str(out, "  → ");
    push_left_aligned(out, r.target.as_str(), 4);
    push_str(out, "  ");
    let ac = decimal_string(r.attacker_count as u64);
    push_right_aligned(out, ac.as_str(), 3);
    push_str(out, "/");
    let dc = decimal_string(r.defender_count as u64);
    push_left_aligned(out, dc.as_str(), 3);
    push_str(out, "  ");
    push_left_aligned(out, r.see_verdict.as_str(), 16);
    push_str(out, " (target: ");
    push_decimal(out, r.target_points as u64);
    push_str(out, " pts)\n");
    assert(out@ =~= old(out)@ + record_line(*r));
}

fn render_side(out: &mut String, s: &SideAttacks)
    ensures
        final(out)@ == old(out)@ + side_text(*s),
{
    if s.attacks.len() == 0 {
        push_str(out, s.side.as_str());
        push_str(out, " attacks: (none)\n\n");
        assert(out@ =~= old(out)@ + side_text(*s));
        return;
    }
    push_str(out, s.side.as_str());
    push_str(out, " attacks on enemy pieces:\n");
    push_str(out, "  from    → to    att/def  SEE             \n");
    let ghost head = out@;
    let mut i: usize = 0;
    while i < s.attacks.len()
        invariant
            i <= s.attacks@.len(),
            out@ == head + record_lines(s.attacks@, i as int),
        decreases s.attacks.len() - i,
    {
        push_record(out, &s.attacks[i]);
        i = i + 1;
        assert(out@ =~= head + record_lines(s.attacks@, i as int));
    }
    push_str(out, "\n");
    assert(out@ =~= old(out)@ + side_text(*s));
}

/// Multi-line rendering: White's table, then Black's.
pub fn render_text(view: &AttacksView) -> (r: String)
    ensures
        r@ == view_text(*view),
{
    let mut out = String::new();
    render_side(&mut out, &view.white);
    render_side(&mut out, &view.black);
    assert(out@ =~= view_text(*view));
    out
}

proof fn lemma_records_flatten(v: Seq<AttackRecord>, k: int)
    requires
        0 <= k <= v.len(),
    ensures
        record_lines(v, k) == v.take(k).map_values(|r: AttackRecord| record_line(r)).flatten(),
    decreases k,
{
    broadcast use Seq::lemma_flatten_push;

    if k > 0 {
        lemma_records_flatten(v, k - 1);
        let f = |r: AttackRecord| record_line(r);
        assert(v.take(k).map_values(f) =~= v.take(k - 1).map_values(f).push(f(v[k - 1])));
    } else {
        assert(v.take(0).map_values(|r: AttackRecord| record_line(r)) =~= Seq::empty());
    }
}

/// The rendered attacks are White's table then Black's; a side with no
/// pair reads "(none)", else its heading, the column heading and one line
/// per pair in order, then a blank line.
pub proof fn law_attacks_text(v: AttacksView)
    ensures
        view_text(v) == side_formula(v.white) + side_formula(v.black),
{
    lemma_records_flatten(v.white.attacks@, v.white.attacks@.len() as int);
    lemma_records_flatten(v.black.attacks@, v.black.attacks@.len() as int);
    assert(v.white.attacks@.take(v.white.attacks@.len() as int) =~= v.white.attacks@);
    assert(v.black.attacks@.take(v.black.attacks@.len() as int) =~= v.black.attacks@);
}

/// A side's text, written out with one `record_line` per pair.
pub open spec fn side_formula(s: SideAttacks) -> Seq<char> {
    let a = s.attacks@;
    if a.len() == 0 {
        s.side@ + " attacks: (none)\n\n"@
    } else {
        s.side@ + " attacks on enemy pieces:\n"@ + table_heading() + a.map_values(
            |r: AttackRecord| record_line(r),
        ).flatten() + "\n"@
    }
}

/// Pieces of both colours attacking `t` on the board as it stands.
pub open spec fn all_attackers(b: Board, t: int) -> u64 {
    spec_attackers_of(b, t, Color::White, b.spec_occupied()) | spec_attackers_of(
        b,
        t,
        Color::Black,
        b.spec_occupied(),
    )
}

/// `side` attacks the enemy non-king piece on `t` with the piece on `a`.
pub open spec fn pair_wanted(b: Board, side: Color, t: int, a: int) -> bool {
    &&& bit(b.spec_by_color(side.spec_other()), t)
    &&& b.spec_piece_at(t) matches Some(p) && p.role != Role::King
    &&& bit(all_attackers(b, t) & b.spec_by_color(side), a)
    &&& b.spec_piece_at(a) is Some
}

/// The `(target, attacker)` pairs of target `t`, attackers in square order
/// among the first `n`.
pub open spec fn pairs_of(b: Board, side: Color, t: int, n: int) -> Seq<(u8, u8)>
    decreases n,
{
    if n <= 0 {
        Seq::empty()
    } else {
        pairs_of(b, side, t, n - 1) + if pair_wanted(b, side, t, n - 1) {
            seq![(t as u8, (n - 1) as u8)]
        } else {
            Seq::empty()
        }
    }
}

/// The pairs of the targets among the first `n` squares, in square order.
pub open spec fn pairs_upto(b: Board, side: Color, n: int) -> Seq<(u8, u8)>
    decreases n,
{
    if n <= 0 {
        Seq::empty()
    } else {
        pairs_upto(b, side, n - 1) + pairs_of(b, side, n - 1, 64)
    }
}

/// Report order of a pair: more valuable targets first, then by the
/// attacker's square name (file letter, then rank).
pub open spec fn pair_key(b: Board, e: (u8, u8)) -> int {
    (9 - spec_classical_points(b.spec_piece_at(e.0 as int).unwrap().role)) * 64 + file_of(
        e.1 as int,
    ) * 8 + rank_of(e.1 as int)
}

/// The pairs of `c` with a key below `k`, by key, in their order in `c`
/// among equal keys.
pub open spec fn pair_buckets(b: Board, c: Seq<(u8, u8)>, k: int) -> Seq<(u8, u8)>
    decreases k,
{
    if k <= 0 {
        Seq::empty()
    } else {
        pair_buckets(b, c, k - 1) + c.filter(|e: (u8, u8)| pair_key(b, e) == k - 1)
    }
}

/// The SEE verdict of the capture of `t` by the piece on `a`.
pub open spec fn verdict_text(setup: Setup, t: int, a: int) -> Seq<char> {
    if setup.board.spec_piece_at(a).unwrap().role == Role::King {
        "n/a (king)"@
    } else if spec_see(setup, a, t) > 0 {
        "wins material"@
    } else if spec_see(setup, a, t) == 0 {
        "even trade"@
    } else {
        "loses material"@
    }
}

/// The record `r` describes the attack of `e.0` by the piece on `e.1`.
pub open spec fn describes(r: AttackRecord, setup: Setup, side: Color, e: (u8, u8)) -> bool {
    let b = setup.board;
    let (t, a) = e;
    let tp = b.spec_piece_at(t as int).unwrap();
    let ap = b.spec_piece_at(a as int).unwrap();
    let all = all_attackers(b, t as int);
    &&& r.attacker@ == spec_piece_label(ap, a as int)
    &&& r.attacker_square@ == square_text(a as int)
    &&& r.attacker_kind@ == spec_piece_type_name(ap.role)
    &&& r.target@ == spec_piece_label(tp, t as int)
    &&& r.target_square@ == square_text(t as int)
    &&& r.target_kind@ == spec_piece_type_name(tp.role)
    &&& r.target_points == spec_classical_points(tp.role)
    &&& r.defender_count == popcount(all & b.spec_by_color(side.spec_other()))
    &&& r.attacker_count == popcount(all & b.spec_by_color(side))
    &&& r.see_verdict@ == verdict_text(setup, t as int, a as int)
}

/// One side's attacks: its lower-case name, and a record per attacked
/// enemy piece other than the king and per attacker of it, most valuable
/// targets first, then by attacker square.
pub open spec fn side_matches(r: SideAttacks, setup: Setup, side: Color) -> bool {
    let keys = pair_buckets(setup.board, pairs_upto(setup.board, side, 64), 640);
    &&& r.side@ == spec_color_name(side)
    &&& r.attacks@.len() == keys.len()
    &&& forall|i: int|
        0 <= i < keys.len() ==> describes(#[trigger] r.attacks@[i], setup, side, keys[i])
}

proof fn lemma_pairs_shape(b: Board, side: Color, t: int, n: int)
    requires
        0 <= t < 64,
        n <= 64,
    ensures
        forall|i: int|
            0 <= i < pairs_of(b, side, t, n).len() ==> {
                let e = #[trigger] pairs_of(b, side, t, n)[i];
                e.0 < 64 && e.1 < 64 && pair_wanted(b, side, e.0 as int, e.1 as int)
            },
    decreases n,
{
    if n > 0 {
        lemma_pairs_shape(b, side, t, n - 1);
        let prev = pairs_of(b, side, t, n - 1);
        let tail: Seq<(u8, u8)> = if pair_wanted(b, side, t, n - 1) {
            seq![(t as u8, (n - 1) as u8)]
        } else {
            Seq::empty()
        };
        assert(pairs_of(b, side, t, n) == prev + tail);
        assert forall|i: int| 0 <= i < (prev + tail).len() implies {
            let e = #[trigger] (prev + tail)[i];
            e.0 < 64 && e.1 < 64 && pair_wanted(b, side, e.0 as int, e.1 as int)
        } by {
            if i < prev.len() {
                assert((prev + tail)[i] == prev[i]);
            } else {
                assert((prev + tail)[i] == tail[i - prev.len()]);
            }
        }
    }
}

proof fn lemma_pairs_upto_shape(b: Board, side: Color, n: int)
    requires
        n <= 64,
    ensures
        forall|i: int|
            0 <= i < pairs_upto(b, side, n).len() ==> {
                let e = #[trigger] pairs_upto(b, side, n)[i];
                e.0 < 64 && e.1 < 64 && pair_wanted(b, side, e.0 as int, e.1 as int)
            },
    decreases n,
{
    if n > 0 {
        lemma_pairs_upto_shape(b, side, n - 1);
        lemma_pairs_shape(b, side, n - 1, 64);
        let prev = pairs_upto(b, side, n - 1);
        let tail = pairs_of(b, side, n - 1, 64);
        assert forall|i: int| 0 <= i < (prev + tail).len() implies {
            let e = #[trigger] (prev + tail)[i];
            e.0 < 64 && e.1 < 64 && pair_wanted(b, side, e.0 as int, e.1 as int)
        } by {
            if i < prev.len() {
                assert((prev + tail)[i] == prev[i]);
            } else {
                assert((prev + tail)[i] == tail[i - prev.len()]);
            }
        }
    }
}

proof fn lemma_pairs_none(b: Board, side: Color, t: int, n: int)
    requires
        forall|a: int| 0 <= a < n ==> !pair_wanted(b, side, t, a),
    ensures
        pairs_of(b, side, t, n) == Seq::<(u8, u8)>::empty(),
    decreases n,
{
    if n > 0 {
        lemma_pairs_none(b, side, t, n - 1);
        assert(pairs_of(b, side, t, n) =~= Seq::<(u8, u8)>::empty());
    }
}

fn collect_target(board: &Board, side: Color, t: u8, out: &mut Vec<(u8, u8)>)
    requires
        t < 64,
    ensures
        final(out)@ == old(out)@ + pairs_of(*board, side, t as int, 64),
{
    let occ = board.occupied();
    let ours = board.by_color(side);
    let enemy = board.by_color(side.other());
    let target_ok = contains(enemy, t) && match board.piece_at(t) {
        Some(p) => match p.role {
            Role::King => false,
            _ => true,
        },
        None => false,
    };
    if !target_ok {
        proof {
            lemma_pairs_none(*board, side, t as int, 64);
        }
        return;
    }
    let all = attackers_of(board, t, Color::White, occ) | attackers_of(board, t, Color::Black, occ);
    let mine = all & ours;
    let ghost start = out@;
    let mut a: u8 = 0;
    while a < 64
        invariant
            a <= 64,
            t < 64,
            target_ok,
            occ == board.spec_occupied(),
            ours == board.spec_by_color(side),
            enemy == board.spec_by_color(side.spec_other()),
            target_ok == (bit(enemy, t as int) && (board.spec_piece_at(t as int) matches Some(p)
                && p.role != Role::King)),
            mine == all_attackers(*board, t as int) & ours,
            out@ == start + pairs_of(*board, side, t as int, a as int),
        decreases 64 - a,
    {
        let want = contains(mine, a) && board.piece_at(a).is_some();
        assert(want == pair_wanted(*board, side, t as int, a as int));
        if want {
            out.push((t, a));
        }
        a = a + 1;
        assert(out@ =~= start + pairs_of(*board, side, t as int, a as int));
    }
}

fn collect_pairs(board: &Board, side: Color) -> (r: Vec<(u8, u8)>)
    ensures
        r@ == pairs_upto(*board, side, 64),
{
    let mut out: Vec<(u8, u8)> = Vec::new();
    let mut t: u8 = 0;
    while t < 64
        invariant
            t <= 64,
            out@ == pairs_upto(*board, side, t as int),
        decreases 64 - t,
    {
        collect_target(board, side, t, &mut out);
        t = t + 1;
        assert(out@ =~= pairs_upto(*board, side, t as int));
    }
    out
}

fn pair_sort_key(board: &Board, e: (u8, u8)) -> (k: u16)
    requires
        e.0 < 64,
        e.1 < 64,
        board.spec_piece_at(e.0 as int) is Some,
    ensures
        k == pair_key(*board, e),
{
    let p = board.piece_at(e.0).unwrap();
    (9 - classical_points(p.role) as u16) * 64 + (e.1 % 8) as u16 * 8 + (e.1 / 8) as u16
}

/// Stable sort of pairs by report order, one key at a time.
fn sort_pairs(board: &Board, c: &Vec<(u8, u8)>) -> (r: Vec<(u8, u8)>)
    requires
        forall|i: int|
            0 <= i < c@.len() ==> (#[trigger] c@[i]).0 < 64 && c@[i].1 < 64
                && board.spec_piece_at(c@[i].0 as int) is Some,
    ensures
        r@ == pair_buckets(*board, c@, 640),
{
    let mut r: Vec<(u8, u8)> = Vec::new();
    let mut k: u16 = 0;
    while k < 640
        invariant
            k <= 640,
            forall|i: int|
                0 <= i < c@.len() ==> (#[trigger] c@[i]).0 < 64 && c@[i].1 < 64
                    && board.spec_piece_at(c@[i].0 as int) is Some,
            r@ == pair_buckets(*board, c@, k as int),
        decreases 640 - k,
    {
        let ghost head = r@;
        let ghost pred = |e: (u8, u8)| pair_key(*board, e) == k as int;
        let mut j: usize = 0;
        while j < c.len()
            invariant
                j <= c@.len(),
                forall|i: int|
                    0 <= i < c@.len() ==> (#[trigger] c@[i]).0 < 64 && c@[i].1 < 64
                        && board.spec_piece_at(c@[i].0 as int) is Some,
                pred == (|e: (u8, u8)| pair_key(*board, e) == k as int),
                r@ == head + c@.take(j as int).filter(pred),
            decreases c.len() - j,
        {
            let e = c[j];
            proof {
                let next = c@.take(j as int + 1);
                let one = seq![e];
                assert(next =~= c@.take(j as int) + one);
                Seq::filter_distributes_over_add(c@.take(j as int), one, pred);
                assert(one.drop_last() =~= Seq::<(u8, u8)>::empty());
                reveal_with_fuel(Seq::filter, 2);
                assert(one.filter(pred) =~= (if pred(e) {
                    one
                } else {
                    Seq::empty()
                }));
            }
            if pair_sort_key(board, e) == k {
                r.push(e);
            }
            j = j + 1;
            assert(r@ =~= head + c@.take(j as int).filter(pred));
        }
        assert(c@.take(c@.len() as int) =~= c@);
        k = k + 1;
        assert(r@ =~= pair_buckets(*board, c@, k as int));
    }
    r
}

/// Every pair of `pair_buckets(b, c, k)` is one of `c`'s.
proof fn lemma_pair_buckets_from(b: Board, c: Seq<(u8, u8)>, k: int)
    ensures
        forall|i: int|
            0 <= i < pair_buckets(b, c, k).len() ==> c.contains(#[trigger] pair_buckets(b, c, k)[i]),
    decreases k,
{
    if k > 0 {
        lemma_pair_buckets_from(b, c, k - 1);
        let prev = pair_buckets(b, c, k - 1);
        let pred = |e: (u8, u8)| pair_key(b, e) == k - 1;
        let tail = c.filter(pred);
        c.filter_lemma(pred);
        assert forall|i: int| 0 <= i < (prev + tail).len() implies c.contains(
            #[trigger] (prev + tail)[i],
        ) by {
            if i < prev.len() {
                assert((prev + tail)[i] == prev[i]);
            } else {
                assert((prev + tail)[i] == tail[i - prev.len()]);
                broadcast use Seq::lemma_filter_contains_rev;

                assert(tail.contains(tail[i - prev.len()]));
            }
        }
    }
}

fn make_record(position: &Position, side: Color, e: (u8, u8)) -> (r: AttackRecord)
    requires
        e.0 < 64,
        e.1 < 64,
        pair_wanted(position.spec_setup().board, side, e.0 as int, e.1 as int),
    ensures
        describes(r, position.spec_setup(), side, e),
{
    let board = &position.setup().board;
    let (t, a) = e;
    let tp = board.piece_at(t).unwrap();
    let ap = board.piece_at(a).unwrap();
    let occ = board.occupied();
    let all = attackers_of(board, t, Color::White, occ) | attackers_of(board, t, Color::Black, occ);
    let mine = all & board.by_color(side);
    let theirs = all & board.by_color(side.other());
    proof {
        lemma_count_bound(mine, 0);
        lemma_count_bound(theirs, 0);
    }
    let attacker_count = square_count(mine) as u32;
    let defender_count = square_count(theirs) as u32;
    let mut see_verdict = String::new();
    match ap.role {
        Role::King => push_str(&mut see_verdict, "n/a (king)"),
        _ => {
            let v = see(position, a, t);
            if v > 0 {
                push_str(&mut see_verdict, "wins material");
            } else if v == 0 {
                push_str(&mut see_verdict, "even trade");
            } else {
                push_str(&mut see_verdict, "loses material");
            }
        },
    }
    let mut attacker_kind = String::new();
    push_str(&mut attacker_kind, piece_type_name(ap.role));
    let mut target_kind = String::new();
    push_str(&mut target_kind, piece_type_name(tp.role));
    AttackRecord {
        attacker: piece_label(ap, a),
        attacker_square: square_name(a),
        attacker_kind,
        target: piece_label(tp, t),
        target_square: square_name(t),
        target_kind,
        target_points: classical_points(tp.role),
        defender_count,
        attacker_count,
        see_verdict,
    }
}

/// One side's attacks in `pos`: for each enemy piece other than the king
/// that `side` attacks, one record per attacker, with both sides' attacker
/// counts and the SEE verdict of that capture; most valuable targets
/// first, then by attacker square.
pub fn build_side(pos: &Position, side: Color) -> (r: SideAttacks)
    ensures
        side_matches(r, pos.spec_setup(), side),
{
    let board = &pos.setup().board;
    let c = collect_pairs(board, side);
    proof {
        lemma_pairs_upto_shape(*board, side, 64);
    }
    let keys = sort_pairs(board, &c);
    proof {
        lemma_pair_buckets_from(*board, c@, 640);
    }
    let mut attacks: Vec<AttackRecord> = Vec::new();
    let mut i: usize = 0;
    while i < keys.len()
        invariant
            i <= keys@.len(),
            *board == pos.spec_setup().board,
            keys@ == pair_buckets(*board, c@, 640),
            c@ == pairs_upto(*board, side, 64),
            forall|j: int|
                0 <= j < c@.len() ==> {
                    let e = #[trigger] c@[j];
                    e.0 < 64 && e.1 < 64 && pair_wanted(*board, side, e.0 as int, e.1 as int)
                },
            forall|j: int| 0 <= j < keys@.len() ==> c@.contains(#[trigger] keys@[j]),
            attacks@.len() == i,
            forall|j: int|
                0 <= j < i ==> describes(#[trigger] attacks@[j], pos.spec_setup(), side, keys@[j]),
        decreases keys.len() - i,
    {
        let e = keys[i];
        proof {
            assert(c@.contains(keys@[i as int]));
            let j = choose|j: int| 0 <= j < c@.len() && c@[j] == keys@[i as int];
            assert(pair_wanted(*board, side, c@[j].0 as int, c@[j].1 as int));
        }
        attacks.push(make_record(pos, side, e));
        i = i + 1;
    }
    let mut name = String::new();
    push_str(&mut name, color_name(side));
    SideAttacks { side: name, attacks }
}

/// The attacks of both sides of `pos`.
pub fn build(pos: &Position) -> (r: AttacksView)
    ensures
        side_matches(r.white, pos.spec_setup(), Color::White),
        side_matches(r.black, pos.spec_setup(), Color::Black),
{
    AttacksView { white: build_side(pos, Color::White), black: build_side(pos, Color::Black) }
}

proof fn lemma_pair_buckets_sorted(b: Board, c: Seq<(u8, u8)>, k: int)
    ensures
        forall|i: int|
            0 <= i < pair_buckets(b, c, k).len() ==> pair_key(b, #[trigger] pair_buckets(b, c, k)[i])
                < k,
        forall|i: int, j: int|
            0 <= i < j < pair_buckets(b, c, k).len() ==> pair_key(
                b,
                #[trigger] pair_buckets(b, c, k)[i],
            ) <= pair_key(b, #[trigger] pair_buckets(b, c, k)[j]),
    decreases k,
{
    if k > 0 {
        lemma_pair_buckets_sorted(b, c, k - 1);
        let prev = pair_buckets(b, c, k - 1);
        let pred = |e: (u8, u8)| pair_key(b, e) == k - 1;
        let tail = c.filter(pred);
        c.filter_lemma(pred);
        let all = prev + tail;
        assert(pair_buckets(b, c, k) == all);
        assert forall|i: int| 0 <= i < all.len() implies pair_key(b, #[trigger] all[i]) < k by {
            if i < prev.len() {
                assert(all[i] == prev[i]);
            } else {
                assert(all[i] == tail[i - prev.len()]);
                assert(pred(tail[i - prev.len()]));
            }
        }
        assert forall|i: int, j: int| 0 <= i < j < all.len() implies pair_key(
            b,
            #[trigger] all[i],
        ) <= pair_key(b, #[trigger] all[j]) by {
            if j < prev.len() {
                assert(all[i] == prev[i]);
                assert(all[j] == prev[j]);
            } else if i < prev.len() {
                assert(all[i] == prev[i]);
                assert(all[j] == tail[j - prev.len()]);
                assert(pred(tail[j - prev.len()]));
            } else {
                assert(all[i] == tail[i - prev.len()]);
                assert(all[j] == tail[j - prev.len()]);
                assert(pred(tail[i - prev.len()]));
                assert(pred(tail[j - prev.len()]));
            }
        }
    }
}

/// The attack records come in report order: a more valuable target never
/// follows a less valuable one, and among equal targets' values the
/// attacker squares ascend by name; each is a scanned attack.
pub proof fn law_attacks_in_report_order(b: Board, side: Color)
    ensures
        ({
            let c = pairs_upto(b, side, 64);
            let r = pair_buckets(b, c, 640);
            &&& forall|i: int, j: int|
                0 <= i < j < r.len() ==> pair_key(b, #[trigger] r[i]) <= pair_key(b, #[trigger] r[j])
            &&& forall|i: int| 0 <= i < r.len() ==> c.contains(#[trigger] r[i])
        }),
{
    let c = pairs_upto(b, side, 64);
    lemma_pair_buckets_sorted(b, c, 640);
    lemma_pair_buckets_from(b, c, 640);
}

/// An attack record's verdict reads the SEE of its capture: "n/a (king)"
/// exactly when the king attacks; otherwise "wins material" exactly when
/// the SEE is positive, "even trade" exactly when it is zero, "loses
/// material" exactly when it is negative.
pub proof fn law_attack_verdict_reads_see(r: AttackRecord, setup: Setup, side: Color, e: (u8, u8))
    requires
        describes(r, setup, side, e),
    ensures
        ({
            let see = spec_see(setup, e.1 as int, e.0 as int);
            let king = setup.board.spec_piece_at(e.1 as int).unwrap().role == Role::King;
            &&& (r.see_verdict@ == "n/a (king)"@) <==> king
            &&& (r.see_verdict@ == "wins material"@) <==> !king && see > 0
            &&& (r.see_verdict@ == "even trade"@) <==> !king && see == 0
            &&& (r.see_verdict@ == "loses material"@) <==> !king && see < 0
        }),
{
    reveal_strlit("n/a (king)");
    reveal_strlit("wins material");
    reveal_strlit("even trade");
    reveal_strlit("loses material");
    assert("wins material"@ != "even trade"@) by {
        assert("wins material"@.len() != "even trade"@.len());
    }
    assert("wins material"@ != "loses material"@) by {
        assert("wins material"@[0] != "loses material"@[0]);
    }
    assert("even trade"@ != "loses material"@) by {
        assert("even trade"@.len() != "loses material"@.len());
    }
    assert("n/a (king)"@ != "even trade"@) by {
        assert("n/a (king)"@[0] != "even trade"@[0]);
    }
    assert("n/a (king)"@ != "wins material"@) by {
        assert("n/a (king)"@[0] != "wins material"@[0]);
    }
    assert("n/a (king)"@ != "loses material"@) by {
        assert("n/a (king)"@[0] != "loses material"@[0]);
    }
}

proof fn lemma_pair_key_lex(p1: int, f1: int, r1: int, p2: int, f2: int, r2: int)
    requires
        0 <= p1 <= 9,
        0 <= p2 <= 9,
        0 <= f1 < 8,
        0 <= r1 < 8,
        0 <= f2 < 8,
        0 <= r2 < 8,
        (9 - p1) * 64 + f1 * 8 + r1 <= (9 - p2) * 64 + f2 * 8 + r2,
    ensures
        p1 > p2 || (p1 == p2 && (f1 < f2 || (f1 == f2 && r1 <= r2))),
{
}

/// Each attack a side's report lists is an enemy piece other than the
/// king, attacked by one of the side's own pieces; and the list runs from
/// the most valuable target down, with the attackers of equally valuable
/// targets in square-name order (file letter, then rank).
pub proof fn law_attack_records(r: SideAttacks, setup: Setup, side: Color)
    requires
        side_matches(r, setup, side),
    ensures
        ({
            let b = setup.board;
            let keys = pair_buckets(b, pairs_upto(b, side, 64), 640);
            &&& r.attacks@.len() == keys.len()
            &&& forall|i: int|
                0 <= i < keys.len() ==> {
                    let e = #[trigger] keys[i];
                    &&& describes(r.attacks@[i], setup, side, e)
                    &&& bit(b.spec_by_color(side.spec_other()), e.0 as int)
                    &&& b.spec_piece_at(e.0 as int) matches Some(p) && p.role != Role::King
                    &&& bit(b.spec_by_color(side), e.1 as int)
                    &&& bit(all_attackers(b, e.0 as int), e.1 as int)
                }
            &&& forall|i: int, j: int|
                0 <= i < j < keys.len() ==> {
                    let (x, y) = (#[trigger] keys[i], #[trigger] keys[j]);
                    let px = spec_classical_points(b.spec_piece_at(x.0 as int).unwrap().role);
                    let py = spec_classical_points(b.spec_piece_at(y.0 as int).unwrap().role);
                    ||| px > py
                    ||| (px == py && (file_of(x.1 as int) < file_of(y.1 as int) || (file_of(
                        x.1 as int,
                    ) == file_of(y.1 as int) && rank_of(x.1 as int) <= rank_of(y.1 as int))))
                }
        }),
{
    let b = setup.board;
    let c = pairs_upto(b, side, 64);
    let keys = pair_buckets(b, c, 640);
    lemma_pairs_upto_shape(b, side, 64);
    lemma_pair_buckets_from(b, c, 640);
    lemma_pair_buckets_sorted(b, c, 640);
    assert forall|i: int| 0 <= i < keys.len() implies {
        let e = #[trigger] keys[i];
        e.0 < 64 && e.1 < 64 && pair_wanted(b, side, e.0 as int, e.1 as int)
    } by {
        assert(c.contains(keys[i]));
        let j = choose|j: int| 0 <= j < c.len() && c[j] == keys[i];
        assert(c[j].0 < 64 && c[j].1 < 64 && pair_wanted(b, side, c[j].0 as int, c[j].1 as int));
    }
    assert forall|i: int| 0 <= i < keys.len() implies {
        let e = #[trigger] keys[i];
        bit(b.spec_by_color(side), e.1 as int) && bit(all_attackers(b, e.0 as int), e.1 as int)
    } by {
        let e = keys[i];
        let a = e.1 as u64;
        let all = all_attackers(b, e.0 as int);
        let ours = b.spec_by_color(side);
        assert((all & ours) & (1u64 << a) != 0 ==> ours & (1u64 << a) != 0 && all & (1u64 << a)
            != 0) by (bit_vector);
    }
    assert forall|i: int, j: int| 0 <= i < j < keys.len() implies {
        let (x, y) = (#[trigger] keys[i], #[trigger] keys[j]);
        let px = spec_classical_points(b.spec_piece_at(x.0 as int).unwrap().role);
        let py = spec_classical_points(b.spec_piece_at(y.0 as int).unwrap().role);
        ||| px > py
        ||| (px == py && (file_of(x.1 as int) < file_of(y.1 as int) || (file_of(x.1 as int)
            == file_of(y.1 as int) && rank_of(x.1 as int) <= rank_of(y.1 as int))))
    } by {
        let x = keys[i];
        let y = keys[j];
        assert(pair_key(b, x) <= pair_key(b, y));
        lemma_pair_key_lex(
            spec_classical_points(b.spec_piece_at(x.0 as int).unwrap().role),
            file_of(x.1 as int),
            rank_of(x.1 as int),
            spec_classical_points(b.spec_piece_at(y.0 as int).unwrap().role),
            file_of(y.1 as int),
            rank_of(y.1 as int),
        );
    }
}

} // verus!
