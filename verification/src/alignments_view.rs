//! Text rendering of the ray-alignment scan: for each slider, the lines
//! through exactly one blocker to another piece, split into
//! discovered-attack candidates (own blocker) and pin / skewer
//! candidates (enemy blocker).

use vstd::prelude::*;

use crate::bitboard::{
    aligned, bishop_attack_set, bishop_attacks, bit, contains, rook_attack_set, rook_attacks,
    spec_aligned, square_bb,
};
use crate::piece_fmt::{piece_label, piece_type_name, spec_piece_label, spec_piece_type_name};
use crate::position::{Board, Color, Position, Role};
use crate::square_view::{file_of, rank_of, spec_file_letter};
use crate::text::{decimal, push_char, push_decimal, push_str};
use crate::threats::{color_name, spec_color_name, square_name, square_text};

verus! {

#[derive(Debug, Clone)]
pub struct AlignmentsView {
    pub white: SideAlignments,
    pub black: SideAlignments,
}

#[derive(Debug, Clone)]
pub struct SideAlignments {
    pub side: String,
    /// Lines where moving the slider's own blocker reveals an attack.
    pub discovered_attack_candidates: Vec<RayAlignment>,
    /// Lines where the blocker is an enemy piece.
    pub pin_skewer_candidates: Vec<RayAlignment>,
}

#[derive(Debug, Clone)]
pub struct RayAlignment {
    /// e.g. "Re1".
    pub slider: String,
    pub slider_square: String,
    pub slider_kind: String,
    /// e.g. "be5".
    pub blocker: String,
    pub blocker_square: String,
    pub blocker_kind: String,
    pub blocker_color: String,
    /// e.g. "qe6".
    pub target: String,
    pub target_square: String,
    pub target_kind: String,
    pub target_color: String,
    /// e.g. "e-file".
    pub ray: String,
    /// Whether the target is worth more than the blocker.
    pub target_more_valuable: bool,
}

/// The name of the line through two aligned squares (numbered 0..64,
/// a1 = 0): their file, their rank, or else the diagonal's direction.
pub open spec fn spec_ray_name(a: int, b: int) -> Seq<char> {
    if file_of(a) == file_of(b) {
        seq![spec_file_letter(file_of(a))] + "-file"@
    } else if rank_of(a) == rank_of(b) {
        decimal((rank_of(a) + 1) as nat) + "th rank"@
    } else if (rank_of(a) < rank_of(b)) == (file_of(a) < file_of(b)) {
        "a1-h8 diagonal"@
    } else {
        "a8-h1 diagonal"@
    }
}

pub fn file_letter(file_idx: u8) -> (c: char)
    requires
        file_idx < 8,
    ensures
        c == spec_file_letter(file_idx as int),
{
    (97u8 + file_idx) as char
}

pub fn ray_name(a: u8, b: u8) -> (r: String)
    requires
        a < 64,
        b < 64,
    ensures
        r@ == spec_ray_name(a as int, b as int),
{
    let mut out = String::new();
    if a % 8 == b % 8 {
        push_char(&mut out, file_letter(a % 8));
        push_str(&mut out, "-file");
    } else if a / 8 == b / 8 {
        push_decimal(&mut out, (a / 8 + 1) as u64);
        push_str(&mut out, "th rank");
    } else if (a / 8 < b / 8) == (a % 8 < b % 8) {
        push_str(&mut out, "a1-h8 diagonal");
    } else {
        push_str(&mut out, "a8-h1 diagonal");
    }
    assert(out@ =~= spec_ray_name(a as int, b as int));
    out
}

pub open spec fn discovery_line(r: RayAlignment) -> Seq<char> {
    "    "@ + r.slider@ + " → (vehicle "@ + r.blocker@ + ") → "@ + r.target@ + " along "@ + r.ray@
        + "\n"@
}

pub open spec fn pin_line(r: RayAlignment) -> Seq<char> {
    "    "@ + r.slider@ + " → (enemy blocker "@ + r.blocker@ + ") → "@ + r.target@ + " along "@
        + r.ray@ + "\n"@
}

/// The lines of the first `k` alignments, as discoveries (`enemy`
/// false) or as pins and skewers (`enemy` true).
pub open spec fn alignment_lines(v: Seq<RayAlignment>, enemy: bool, k: int) -> Seq<char>
    decreases k,
{
    if k <= 0 {
        Seq::empty()
    } else {
        alignment_lines(v, enemy, k - 1) + if enemy {
            pin_line(v[k - 1])
        } else {
            discovery_line(v[k - 1])
        }
    }
}

pub open spec fn block(title: Seq<char>, v: Seq<RayAlignment>, enemy: bool) -> Seq<char> {
    if v.len() == 0 {
        Seq::empty()
    } else {
        "  "@ + title + " ("@ + decimal(v.len()) + "):\n"@ + alignment_lines(v, enemy, v.len() as int)
    }
}

/// One side: "(none)", or its two candidate lists; then a blank line.
pub open spec fn side_text(s: SideAlignments) -> Seq<char> {
    let d = s.discovered_attack_candidates@;
    let p = s.pin_skewer_candidates@;
    if d.len() == 0 && p.len() == 0 {
        s.side@ + " alignments: (none)\n\n"@
    } else {
        s.side@ + " alignments:\n"@ + block("discovered-attack candidates"@, d, false) + block(
            "pin / skewer candidates"@,
            p,
            true,
        ) + "\n"@
    }
}

pub open spec fn view_text(v: AlignmentsView) -> Seq<char> {
    side_text(v.white) + side_text(v.black)
}

fn push_alignment(out: &mut String, r: &RayAlignment, enemy: bool)
    ensures
        final(out)@ == old(out)@ + if enemy {
            pin_line(*r)
        } else {
            discovery_line(*r)
        },
{
    push_str(out, "    ");
    push_str(out, r.slider.as_str());
    if enemy {
        push_str(out, " → (enemy blocker ");
    } else {
        push_str(out, " → (vehicle ");
    }
    push_str(out, r.blocker.as_str());
    push_str(out, ") → ");
    push_str(out, r.target.as_str());
    push_str(out, " along ");
    push_str(out, r.ray.as_str());
    push_str(out, "\n");
    assert(out@ =~= old(out)@ + if enemy {
        pin_line(*r)
    } else {
        discovery_line(*r)
    });
}

fn push_block(out: &mut String, title: &str, v: &Vec<RayAlignment>, enemy: bool)
    ensures
        final(out)@ == old(out)@ + block(title@, v@, enemy),
{
    if v.len() == 0 {
        assert(out@ =~= old(out)@ + block(title@, v@, enemy));
        return;
    }
    push_str(out, "  ");
    push_str(out, title);
    push_str(out, " (");
    push_decimal(out, v.len() as u64);
    push_str(out, "):\n");
    let ghost head = out@;
    let mut i: usize = 0;
    while i < v.len()
        invariant
            i <= v@.len(),
            out@ == head + alignment_lines(v@, enemy, i as int),
        decreases v.len() - i,
    {
        push_alignment(out, &v[i], enemy);
        i = i + 1;
        assert(out@ =~= head + alignment_lines(v@, enemy, i as int));
    }
    assert(out@ =~= old(out)@ + block(title@, v@, enemy));
}

fn render_side(out: &mut String, s: &SideAlignments)
    ensures
        final(out)@ == old(out)@ + side_text(*s),
{
    if s.discovered_attack_candidates.len() == 0 && s.pin_skewer_candidates.len() == 0 {
        push_str(out, s.side.as_str());
        push_str(out, " alignments: (none)\n\n");
        assert(out@ =~= old(out)@ + side_text(*s));
        return;
    }
    push_str(out, s.side.as_str());
    push_str(out, " alignments:\n");
    push_block(out, "discovered-attack candidates", &s.discovered_attack_candidates, false);
    push_block(out, "pin / skewer candidates", &s.pin_skewer_candidates, true);
    push_str(out, "\n");
    assert(out@ =~= old(out)@ + side_text(*s));
}

/// Multi-line rendering: White's alignments, then Black's.
pub fn render_text(view: &AlignmentsView) -> (r: String)
    ensures
        r@ == view_text(*view),
{
    let mut out = String::new();
    render_side(&mut out, &view.white);
    render_side(&mut out, &view.black);
    assert(out@ =~= view_text(*view));
    out
}

/// The display line of one alignment, as a discovery (`enemy` false) or as
/// a pin or skewer (`enemy` true).
pub open spec fn entry_line(r: RayAlignment, enemy: bool) -> Seq<char> {
    if enemy {
        pin_line(r)
    } else {
        discovery_line(r)
    }
}

proof fn lemma_lines_flatten(v: Seq<RayAlignment>, enemy: bool, k: int)
    requires
        0 <= k <= v.len(),
    ensures
        alignment_lines(v, enemy, k) == v.take(k).map_values(|r: RayAlignment| entry_line(r, enemy)).flatten(),
    decreases k,
{
    broadcast use Seq::lemma_flatten_push;

    if k > 0 {
        lemma_lines_flatten(v, enemy, k - 1);
        let f = |r: RayAlignment| entry_line(r, enemy);
        assert(v.take(k).map_values(f) =~= v.take(k - 1).map_values(f).push(f(v[k - 1])));
    } else {
        assert(v.take(0).map_values(|r: RayAlignment| entry_line(r, enemy)) =~= Seq::empty());
    }
}

/// A side's text, written out: "(none)" when it has no candidates;
/// else its heading, then for each non-empty list a titled count and one
/// line per alignment in order, then a blank line.
pub open spec fn side_formula(s: SideAlignments) -> Seq<char> {
    let d = s.discovered_attack_candidates@;
    let p = s.pin_skewer_candidates@;
    if d.len() == 0 && p.len() == 0 {
        s.side@ + " alignments: (none)\n\n"@
    } else {
        s.side@ + " alignments:\n"@ + (if d.len() == 0 {
            Seq::empty()
        } else {
            "  "@ + "discovered-attack candidates"@ + " ("@ + decimal(d.len()) + "):\n"@ + d.map_values(
                |r: RayAlignment| discovery_line(r),
            ).flatten()
        }) + (if p.len() == 0 {
            Seq::empty()
        } else {
            "  "@ + "pin / skewer candidates"@ + " ("@ + decimal(p.len()) + "):\n"@ + p.map_values(
                |r: RayAlignment| pin_line(r),
            ).flatten()
        }) + "\n"@
    }
}

/// The rendered alignments are White's side text then Black's, each as
/// `side_formula` writes it out.
pub proof fn law_alignments_text(v: AlignmentsView)
    ensures
        view_text(v) == side_formula(v.white) + side_formula(v.black),
{
    lemma_side_formula(v.white);
    lemma_side_formula(v.black);
}

proof fn lemma_side_formula(s: SideAlignments)
    ensures
        side_text(s) == side_formula(s),
{
    let d = s.discovered_attack_candidates@;
    let p = s.pin_skewer_candidates@;
    lemma_lines_flatten(d, false, d.len() as int);
    lemma_lines_flatten(p, true, p.len() as int);
    assert(d.take(d.len() as int) =~= d);
    assert(p.take(p.len() as int) =~= p);
    assert(d.map_values(|r: RayAlignment| entry_line(r, false)) =~= d.map_values(
        |r: RayAlignment| discovery_line(r),
    ));
    assert(p.map_values(|r: RayAlignment| entry_line(r, true)) =~= p.map_values(
        |r: RayAlignment| pin_line(r),
    ));
}

/// Classical material points of a role (the king counts none).
pub open spec fn spec_classical_points(r: Role) -> int {
    match r {
        Role::Pawn => 1,
        Role::Knight => 3,
        Role::Bishop => 3,
        Role::Rook => 5,
        Role::Queen => 9,
        Role::King => 0,
    }
}

pub fn classical_points(r: Role) -> (p: u8)
    ensures
        p == spec_classical_points(r),
{
    match r {
        Role::Pawn => 1,
        Role::Knight => 3,
        Role::Bishop => 3,
        Role::Rook => 5,
        Role::Queen => 9,
        Role::King => 0,
    }
}

/// `sq` holds one of `side`'s sliders along ranks and files (`orth`: rook
/// or queen) or along diagonals (bishop or queen).
pub open spec fn is_slider(b: Board, side: Color, sq: int, orth: bool) -> bool {
    bit(b.spec_by_color(side), sq) && (bit(b.queens, sq) || if orth {
        bit(b.rooks, sq)
    } else {
        bit(b.bishops, sq)
    })
}

/// What a slider on `sq` reaches along ranks and files or along diagonals.
pub open spec fn slider_reach(sq: int, occupied: u64, orth: bool) -> u64 {
    if orth {
        rook_attack_set(sq, occupied)
    } else {
        bishop_attack_set(sq, occupied)
    }
}

/// The three squares hold pieces, and the alignment is reported: always
/// with `low`, else only when the target is worth more than the blocker.
pub open spec fn kept(b: Board, s: int, bsq: int, t: int, low: bool) -> bool {
    &&& b.spec_piece_at(s) is Some
    &&& b.spec_piece_at(bsq) matches Some(bp)
    &&& b.spec_piece_at(t) matches Some(tp)
    &&& (low || spec_classical_points(tp.role) > spec_classical_points(bp.role))
}

/// `side`'s slider on `s` sees the piece on `bsq` first along a line, and
/// the piece on `t` is the next one behind it on that line; the alignment
/// is a discovery (`disc`: own blocker, enemy target) or a pin / skewer
/// (enemy blocker, any target), and it is kept.
pub open spec fn wanted(
    b: Board,
    side: Color,
    orth: bool,
    disc: bool,
    low: bool,
    s: int,
    bsq: int,
    t: int,
) -> bool {
    let occ = b.spec_occupied();
    let ours = b.spec_by_color(side);
    let enemy = b.spec_by_color(side.spec_other());
    let normal = slider_reach(s, occ, orth);
    let extended = slider_reach(s, occ ^ square_bb(bsq), orth);
    &&& is_slider(b, side, s, orth)
    &&& bit(normal, bsq) && bit(occ, bsq) && (bit(ours, bsq) || bit(enemy, bsq))
    &&& bit(extended, t) && !bit(normal, t) && bit(occ, t) && spec_aligned(s, bsq, t)
    &&& if disc {
        bit(ours, bsq) && bit(enemy, t)
    } else {
        !bit(ours, bsq)
    }
    &&& kept(b, s, bsq, t, low)
}

/// The wanted `(slider, blocker, target)` triples of one slider and one
/// blocker, targets in square order among the first `n`.
pub open spec fn targets_upto(
    b: Board,
    side: Color,
    orth: bool,
    disc: bool,
    low: bool,
    s: int,
    bsq: int,
    n: int,
) -> Seq<(u8, u8, u8)>
    decreases n,
{
    if n <= 0 {
        Seq::empty()
    } else {
        targets_upto(b, side, orth, disc, low, s, bsq, n - 1) + if wanted(
            b,
            side,
            orth,
            disc,
            low,
            s,
            bsq,
            n - 1,
        ) {
            seq![(s as u8, bsq as u8, (n - 1) as u8)]
        } else {
            Seq::empty()
        }
    }
}

/// The wanted triples of one slider, blockers in square order among the
/// first `n`.
pub open spec fn blockers_upto(
    b: Board,
    side: Color,
    orth: bool,
    disc: bool,
    low: bool,
    s: int,
    n: int,
) -> Seq<(u8, u8, u8)>
    decreases n,
{
    if n <= 0 {
        Seq::empty()
    } else {
        blockers_upto(b, side, orth, disc, low, s, n - 1) + targets_upto(
            b,
            side,
            orth,
            disc,
            low,
            s,
            n - 1,
            64,
        )
    }
}

/// The wanted triples of the sliders among the first `n` squares, in
/// square order.
pub open spec fn sliders_upto(b: Board, side: Color, orth: bool, disc: bool, low: bool, n: int) -> Seq<
    (u8, u8, u8),
>
    decreases n,
{
    if n <= 0 {
        Seq::empty()
    } else {
        sliders_upto(b, side, orth, disc, low, n - 1) + blockers_upto(
            b,
            side,
            orth,
            disc,
            low,
            n - 1,
            64,
        )
    }
}

/// All alignments of one flavour in scan order: rank-and-file sliders
/// first, then diagonal ones.
pub open spec fn candidates(b: Board, side: Color, disc: bool, low: bool) -> Seq<(u8, u8, u8)> {
    sliders_upto(b, side, true, disc, low, 64) + sliders_upto(b, side, false, disc, low, 64)
}

/// The report order of a triple: by the slider's square name, then the
/// blocker's (file letter first, then rank).
pub open spec fn spec_sort_key(e: (u8, u8, u8)) -> int {
    ((file_of(e.0 as int) * 8 + rank_of(e.0 as int)) * 8 + file_of(e.1 as int)) * 8 + rank_of(
        e.1 as int,
    )
}

/// The triples of `c` with a key below `k`, by key, and in their order in
/// `c` among equal keys: a stable sort of `c` by key for `k = 4096`.
pub open spec fn key_buckets(c: Seq<(u8, u8, u8)>, k: int) -> Seq<(u8, u8, u8)>
    decreases k,
{
    if k <= 0 {
        Seq::empty()
    } else {
        key_buckets(c, k - 1) + c.filter(|e: (u8, u8, u8)| spec_sort_key(e) == k - 1)
    }
}

/// The record `r` describes the alignment `(s, bsq, t)` of `b`.
pub open spec fn describes(r: RayAlignment, b: Board, e: (u8, u8, u8)) -> bool {
    let (s, bsq, t) = e;
    let sp = b.spec_piece_at(s as int).unwrap();
    let bp = b.spec_piece_at(bsq as int).unwrap();
    let tp = b.spec_piece_at(t as int).unwrap();
    &&& r.slider@ == spec_piece_label(sp, s as int)
    &&& r.slider_square@ == square_text(s as int)
    &&& r.slider_kind@ == spec_piece_type_name(sp.role)
    &&& r.blocker@ == spec_piece_label(bp, bsq as int)
    &&& r.blocker_square@ == square_text(bsq as int)
    &&& r.blocker_kind@ == spec_piece_type_name(bp.role)
    &&& r.blocker_color@ == spec_color_name(bp.color)
    &&& r.target@ == spec_piece_label(tp, t as int)
    &&& r.target_square@ == square_text(t as int)
    &&& r.target_kind@ == spec_piece_type_name(tp.role)
    &&& r.target_color@ == spec_color_name(tp.color)
    &&& r.ray@ == spec_ray_name(s as int, t as int)
    &&& r.target_more_valuable == (spec_classical_points(tp.role) > spec_classical_points(
        bp.role,
    ))
}

/// The records of `v` describe the triples of `keys`, one for one.
pub open spec fn records_match(v: Seq<RayAlignment>, b: Board, keys: Seq<(u8, u8, u8)>) -> bool {
    v.len() == keys.len() && forall|i: int| 0 <= i < v.len() ==> describes(#[trigger] v[i], b, keys[i])
}

/// One side's alignments: its lower-case name, and each flavour's
/// alignments stably sorted by slider square, then blocker square.
pub open spec fn side_matches(r: SideAlignments, b: Board, side: Color, low: bool) -> bool {
    &&& r.side@ == spec_color_name(side)
    &&& records_match(r.discovered_attack_candidates@, b, key_buckets(candidates(b, side, true, low), 4096))
    &&& records_match(r.pin_skewer_candidates@, b, key_buckets(candidates(b, side, false, low), 4096))
}

proof fn lemma_targets_none(
    b: Board,
    side: Color,
    orth: bool,
    disc: bool,
    low: bool,
    s: int,
    bsq: int,
    n: int,
)
    requires
        forall|t: int| 0 <= t < n ==> !wanted(b, side, orth, disc, low, s, bsq, t),
    ensures
        targets_upto(b, side, orth, disc, low, s, bsq, n) == Seq::<(u8, u8, u8)>::empty(),
    decreases n,
{
    if n > 0 {
        lemma_targets_none(b, side, orth, disc, low, s, bsq, n - 1);
        assert(targets_upto(b, side, orth, disc, low, s, bsq, n) =~= Seq::<(u8, u8, u8)>::empty());
    }
}

proof fn lemma_blockers_none(b: Board, side: Color, orth: bool, disc: bool, low: bool, s: int, n: int)
    requires
        !is_slider(b, side, s, orth),
    ensures
        blockers_upto(b, side, orth, disc, low, s, n) == Seq::<(u8, u8, u8)>::empty(),
    decreases n,
{
    if n > 0 {
        lemma_blockers_none(b, side, orth, disc, low, s, n - 1);
        lemma_targets_none(b, side, orth, disc, low, s, n - 1, 64);
        assert(blockers_upto(b, side, orth, disc, low, s, n) =~= Seq::<(u8, u8, u8)>::empty());
    }
}

fn slider_attacks(sq: u8, occupied: u64, orth: bool) -> (r: u64)
    requires
        sq < 64,
    ensures
        r == slider_reach(sq as int, occupied, orth),
{
    if orth {
        rook_attacks(sq, occupied)
    } else {
        bishop_attacks(sq, occupied)
    }
}

fn keep(board: &Board, s: u8, bsq: u8, t: u8, low: bool) -> (r: bool)
    requires
        s < 64,
        bsq < 64,
        t < 64,
    ensures
        r == kept(*board, s as int, bsq as int, t as int, low),
{
    match (board.piece_at(s), board.piece_at(bsq), board.piece_at(t)) {
        (Some(_), Some(bp), Some(tp)) => low || classical_points(tp.role) > classical_points(
            bp.role,
        ),
        _ => false,
    }
}

fn collect_blocker(
    board: &Board,
    side: Color,
    orth: bool,
    disc: bool,
    low: bool,
    s: u8,
    bsq: u8,
    out: &mut Vec<(u8, u8, u8)>,
)
    requires
        s < 64,
        bsq < 64,
    ensures
        final(out)@ == old(out)@ + targets_upto(
            *board,
            side,
            orth,
            disc,
            low,
            s as int,
            bsq as int,
            64,
        ),
{
    let occ = board.occupied();
    let ours = board.by_color(side);
    let enemy = board.by_color(side.other());
    let normal = slider_attacks(s, occ, orth);
    let extended = slider_attacks(s, occ ^ (1u64 << (bsq as u64)), orth);
    let b_ours = contains(ours, bsq);
    let b_enemy = contains(enemy, bsq);
    let here = contains(ours, s) && (contains(board.queens, s) || if orth {
        contains(board.rooks, s)
    } else {
        contains(board.bishops, s)
    });
    let blocker_ok = contains(normal, bsq) && contains(occ, bsq) && (b_ours || b_enemy);
    let ghost start = out@;
    let mut t: u8 = 0;
    while t < 64
        invariant
            t <= 64,
            s < 64,
            bsq < 64,
            occ == board.spec_occupied(),
            ours == board.spec_by_color(side),
            enemy == board.spec_by_color(side.spec_other()),
            normal == slider_reach(s as int, occ, orth),
            extended == slider_reach(s as int, occ ^ square_bb(bsq as int), orth),
            b_ours == bit(ours, bsq as int),
            here == is_slider(*board, side, s as int, orth),
            blocker_ok == (bit(normal, bsq as int) && bit(occ, bsq as int) && (bit(ours, bsq as int)
                || bit(enemy, bsq as int))),
            out@ == start + targets_upto(*board, side, orth, disc, low, s as int, bsq as int, t as int),
        decreases 64 - t,
    {
        let mut want = here && blocker_ok && contains(extended, t) && !contains(normal, t)
            && contains(occ, t);
        if want {
            want = aligned(s, bsq, t);
        }
        if want {
            want = if disc {
                b_ours && contains(enemy, t)
            } else {
                !b_ours
            };
        }
        if want {
            want = keep(board, s, bsq, t, low);
        }
        assert(want == wanted(*board, side, orth, disc, low, s as int, bsq as int, t as int));
        if want {
            out.push((s, bsq, t));
        }
        t = t + 1;
        assert(out@ =~= start + targets_upto(
            *board,
            side,
            orth,
            disc,
            low,
            s as int,
            bsq as int,
            t as int,
        ));
    }
}

fn collect_slider(
    board: &Board,
    side: Color,
    orth: bool,
    disc: bool,
    low: bool,
    s: u8,
    out: &mut Vec<(u8, u8, u8)>,
)
    requires
        s < 64,
    ensures
        final(out)@ == old(out)@ + blockers_upto(*board, side, orth, disc, low, s as int, 64),
{
    let ghost start = out@;
    let mut bsq: u8 = 0;
    while bsq < 64
        invariant
            bsq <= 64,
            s < 64,
            out@ == start + blockers_upto(*board, side, orth, disc, low, s as int, bsq as int),
        decreases 64 - bsq,
    {
        let ghost before = out@;
        collect_blocker(board, side, orth, disc, low, s, bsq, out);
        bsq = bsq + 1;
        assert(out@ =~= start + blockers_upto(*board, side, orth, disc, low, s as int, bsq as int));
    }
}

fn collect_side(board: &Board, side: Color, orth: bool, disc: bool, low: bool, out: &mut Vec<(u8, u8, u8)>)
    ensures
        final(out)@ == old(out)@ + sliders_upto(*board, side, orth, disc, low, 64),
{
    let ours = board.by_color(side);
    let ghost start = out@;
    let mut s: u8 = 0;
    while s < 64
        invariant
            s <= 64,
            ours == board.spec_by_color(side),
            out@ == start + sliders_upto(*board, side, orth, disc, low, s as int),
        decreases 64 - s,
    {
        let here = contains(ours, s) && (contains(board.queens, s) || if orth {
            contains(board.rooks, s)
        } else {
            contains(board.bishops, s)
        });
        if here {
            collect_slider(board, side, orth, disc, low, s, out);
        } else {
            proof {
                lemma_blockers_none(*board, side, orth, disc, low, s as int, 64);
            }
        }
        s = s + 1;
        assert(out@ =~= start + sliders_upto(*board, side, orth, disc, low, s as int));
    }
}

fn sort_key(e: (u8, u8, u8)) -> (k: u16)
    requires
        e.0 < 64,
        e.1 < 64,
    ensures
        k == spec_sort_key(e),
{
    (((e.0 % 8) as u16 * 8 + (e.0 / 8) as u16) * 8 + (e.1 % 8) as u16) * 8 + (e.1 / 8) as u16
}

/// Stable sort of triples by report order, one key at a time.
fn sort_by_squares(c: &Vec<(u8, u8, u8)>) -> (r: Vec<(u8, u8, u8)>)
    requires
        forall|i: int| 0 <= i < c@.len() ==> (#[trigger] c@[i]).0 < 64 && c@[i].1 < 64,
    ensures
        r@ == key_buckets(c@, 4096),
{
    let mut r: Vec<(u8, u8, u8)> = Vec::new();
    let mut k: u16 = 0;
    while k < 4096
        invariant
            k <= 4096,
            forall|i: int| 0 <= i < c@.len() ==> (#[trigger] c@[i]).0 < 64 && c@[i].1 < 64,
            r@ == key_buckets(c@, k as int),
        decreases 4096 - k,
    {
        let ghost head = r@;
        let ghost pred = |e: (u8, u8, u8)| spec_sort_key(e) == k as int;
        let mut j: usize = 0;
        while j < c.len()
            invariant
                j <= c@.len(),
                forall|i: int| 0 <= i < c@.len() ==> (#[trigger] c@[i]).0 < 64 && c@[i].1 < 64,
                pred == (|e: (u8, u8, u8)| spec_sort_key(e) == k as int),
                r@ == head + c@.take(j as int).filter(pred),
            decreases c.len() - j,
        {
            let e = c[j];
            proof {
                let next = c@.take(j as int + 1);
                let one = seq![e];
                assert(next =~= c@.take(j as int) + one);
                Seq::filter_distributes_over_add(c@.take(j as int), one, pred);
                assert(one.drop_last() =~= Seq::<(u8, u8, u8)>::empty());
                reveal_with_fuel(Seq::filter, 2);
                assert(one.filter(pred) =~= (if pred(e) {
                    one
                } else {
                    Seq::empty()
                }));
            }
            if sort_key(e) == k {
                r.push(e);
            }
            j = j + 1;
            assert(r@ =~= head + c@.take(j as int).filter(pred));
        }
        assert(c@.take(c@.len() as int) =~= c@);
        k = k + 1;
        assert(r@ =~= key_buckets(c@, k as int));
    }
    r
}

proof fn lemma_targets_in_range(
    b: Board,
    side: Color,
    orth: bool,
    disc: bool,
    low: bool,
    s: int,
    bsq: int,
    n: int,
)
    requires
        0 <= s < 64,
        0 <= bsq < 64,
        n <= 64,
    ensures
        forall|i: int|
            0 <= i < targets_upto(b, side, orth, disc, low, s, bsq, n).len() ==> {
                let e = #[trigger] targets_upto(b, side, orth, disc, low, s, bsq, n)[i];
                e.0 == s && e.1 == bsq && e.2 < 64
            },
    decreases n,
{
    if n > 0 {
        lemma_targets_in_range(b, side, orth, disc, low, s, bsq, n - 1);
        let prev = targets_upto(b, side, orth, disc, low, s, bsq, n - 1);
        let tail: Seq<(u8, u8, u8)> = if wanted(b, side, orth, disc, low, s, bsq, n - 1) {
            seq![(s as u8, bsq as u8, (n - 1) as u8)]
        } else {
            Seq::empty()
        };
        assert(targets_upto(b, side, orth, disc, low, s, bsq, n) == prev + tail);
        assert forall|i: int| 0 <= i < (prev + tail).len() implies {
            let e = #[trigger] (prev + tail)[i];
            e.0 == s && e.1 == bsq && e.2 < 64
        } by {
            if i < prev.len() {
                assert((prev + tail)[i] == prev[i]);
            } else {
                assert((prev + tail)[i] == tail[i - prev.len()]);
            }
        }
    }
}

proof fn lemma_blockers_in_range(b: Board, side: Color, orth: bool, disc: bool, low: bool, s: int, n: int)
    requires
        0 <= s < 64,
        n <= 64,
    ensures
        forall|i: int|
            0 <= i < blockers_upto(b, side, orth, disc, low, s, n).len() ==> {
                let e = #[trigger] blockers_upto(b, side, orth, disc, low, s, n)[i];
                e.0 < 64 && e.1 < 64 && e.2 < 64
            },
    decreases n,
{
    if n > 0 {
        lemma_blockers_in_range(b, side, orth, disc, low, s, n - 1);
        lemma_targets_in_range(b, side, orth, disc, low, s, n - 1, 64);
        let prev = blockers_upto(b, side, orth, disc, low, s, n - 1);
        let tail = targets_upto(b, side, orth, disc, low, s, n - 1, 64);
        assert forall|i: int| 0 <= i < (prev + tail).len() implies {
            let e = #[trigger] (prev + tail)[i];
            e.0 < 64 && e.1 < 64 && e.2 < 64
        } by {
            if i < prev.len() {
                assert((prev + tail)[i] == prev[i]);
            } else {
                assert((prev + tail)[i] == tail[i - prev.len()]);
            }
        }
    }
}

proof fn lemma_sliders_in_range(b: Board, side: Color, orth: bool, disc: bool, low: bool, n: int)
    requires
        n <= 64,
    ensures
        forall|i: int|
            0 <= i < sliders_upto(b, side, orth, disc, low, n).len() ==> {
                let e = #[trigger] sliders_upto(b, side, orth, disc, low, n)[i];
                e.0 < 64 && e.1 < 64 && e.2 < 64
            },
    decreases n,
{
    if n > 0 {
        lemma_sliders_in_range(b, side, orth, disc, low, n - 1);
        lemma_blockers_in_range(b, side, orth, disc, low, n - 1, 64);
        let prev = sliders_upto(b, side, orth, disc, low, n - 1);
        let tail = blockers_upto(b, side, orth, disc, low, n - 1, 64);
        assert forall|i: int| 0 <= i < (prev + tail).len() implies {
            let e = #[trigger] (prev + tail)[i];
            e.0 < 64 && e.1 < 64 && e.2 < 64
        } by {
            if i < prev.len() {
                assert((prev + tail)[i] == prev[i]);
            } else {
                assert((prev + tail)[i] == tail[i - prev.len()]);
            }
        }
    }
}

fn make_record(board: &Board, e: (u8, u8, u8)) -> (r: RayAlignment)
    requires
        e.0 < 64,
        e.1 < 64,
        e.2 < 64,
        board.spec_piece_at(e.0 as int) is Some,
        board.spec_piece_at(e.1 as int) is Some,
        board.spec_piece_at(e.2 as int) is Some,
    ensures
        describes(r, *board, e),
{
    let (s, bsq, t) = e;
    let sp = board.piece_at(s).unwrap();
    let bp = board.piece_at(bsq).unwrap();
    let tp = board.piece_at(t).unwrap();
    let mut slider_kind = String::new();
    push_str(&mut slider_kind, piece_type_name(sp.role));
    let mut blocker_kind = String::new();
    push_str(&mut blocker_kind, piece_type_name(bp.role));
    let mut blocker_color = String::new();
    push_str(&mut blocker_color, color_name(bp.color));
    let mut target_kind = String::new();
    push_str(&mut target_kind, piece_type_name(tp.role));
    let mut target_color = String::new();
    push_str(&mut target_color, color_name(tp.color));
    RayAlignment {
        slider: piece_label(sp, s),
        slider_square: square_name(s),
        slider_kind,
        blocker: piece_label(bp, bsq),
        blocker_square: square_name(bsq),
        blocker_kind,
        blocker_color,
        target: piece_label(tp, t),
        target_square: square_name(t),
        target_kind,
        target_color,
        ray: ray_name(s, t),
        target_more_valuable: classical_points(tp.role) > classical_points(bp.role),
    }
}

proof fn lemma_wanted_kept(b: Board, side: Color, orth: bool, disc: bool, low: bool, n: int)
    requires
        n <= 64,
    ensures
        forall|i: int|
            0 <= i < sliders_upto(b, side, orth, disc, low, n).len() ==> {
                let e = #[trigger] sliders_upto(b, side, orth, disc, low, n)[i];
                kept(b, e.0 as int, e.1 as int, e.2 as int, low)
            },
    decreases n,
{
    if n > 0 {
        lemma_wanted_kept(b, side, orth, disc, low, n - 1);
        let prev = sliders_upto(b, side, orth, disc, low, n - 1);
        let tail = blockers_upto(b, side, orth, disc, low, n - 1, 64);
        lemma_blockers_kept(b, side, orth, disc, low, n - 1, 64);
        assert forall|i: int| 0 <= i < (prev + tail).len() implies {
            let e = #[trigger] (prev + tail)[i];
            kept(b, e.0 as int, e.1 as int, e.2 as int, low)
        } by {
            if i < prev.len() {
                assert((prev + tail)[i] == prev[i]);
            } else {
                assert((prev + tail)[i] == tail[i - prev.len()]);
            }
        }
    }
}

proof fn lemma_blockers_kept(b: Board, side: Color, orth: bool, disc: bool, low: bool, s: int, n: int)
    requires
        0 <= s < 64,
        n <= 64,
    ensures
        forall|i: int|
            0 <= i < blockers_upto(b, side, orth, disc, low, s, n).len() ==> {
                let e = #[trigger] blockers_upto(b, side, orth, disc, low, s, n)[i];
                kept(b, e.0 as int, e.1 as int, e.2 as int, low)
            },
    decreases n,
{
    if n > 0 {
        lemma_blockers_kept(b, side, orth, disc, low, s, n - 1);
        lemma_targets_kept(b, side, orth, disc, low, s, n - 1, 64);
        let prev = blockers_upto(b, side, orth, disc, low, s, n - 1);
        let tail = targets_upto(b, side, orth, disc, low, s, n - 1, 64);
        assert forall|i: int| 0 <= i < (prev + tail).len() implies {
            let e = #[trigger] (prev + tail)[i];
            kept(b, e.0 as int, e.1 as int, e.2 as int, low)
        } by {
            if i < prev.len() {
                assert((prev + tail)[i] == prev[i]);
            } else {
                assert((prev + tail)[i] == tail[i - prev.len()]);
            }
        }
    }
}

proof fn lemma_targets_kept(
    b: Board,
    side: Color,
    orth: bool,
    disc: bool,
    low: bool,
    s: int,
    bsq: int,
    n: int,
)
    requires
        0 <= s < 64,
        0 <= bsq < 64,
        n <= 64,
    ensures
        forall|i: int|
            0 <= i < targets_upto(b, side, orth, disc, low, s, bsq, n).len() ==> {
                let e = #[trigger] targets_upto(b, side, orth, disc, low, s, bsq, n)[i];
                kept(b, e.0 as int, e.1 as int, e.2 as int, low)
            },
    decreases n,
{
    if n > 0 {
        lemma_targets_kept(b, side, orth, disc, low, s, bsq, n - 1);
        let prev = targets_upto(b, side, orth, disc, low, s, bsq, n - 1);
        let tail: Seq<(u8, u8, u8)> = if wanted(b, side, orth, disc, low, s, bsq, n - 1) {
            seq![(s as u8, bsq as u8, (n - 1) as u8)]
        } else {
            Seq::empty()
        };
        assert(targets_upto(b, side, orth, disc, low, s, bsq, n) == prev + tail);
        assert forall|i: int| 0 <= i < (prev + tail).len() implies {
            let e = #[trigger] (prev + tail)[i];
            kept(b, e.0 as int, e.1 as int, e.2 as int, low)
        } by {
            if i < prev.len() {
                assert((prev + tail)[i] == prev[i]);
            } else {
                assert((prev + tail)[i] == tail[i - prev.len()]);
            }
        }
    }
}

/// Every triple of `key_buckets(c, k)` is one of `c`'s.
proof fn lemma_buckets_from(c: Seq<(u8, u8, u8)>, k: int)
    ensures
        forall|i: int|
            0 <= i < key_buckets(c, k).len() ==> c.contains(#[trigger] key_buckets(c, k)[i]),
    decreases k,
{
    if k > 0 {
        lemma_buckets_from(c, k - 1);
        let prev = key_buckets(c, k - 1);
        let pred = |e: (u8, u8, u8)| spec_sort_key(e) == k - 1;
        let tail = c.filter(pred);
        c.filter_lemma(pred);
        assert forall|i: int| 0 <= i < (prev + tail).len() implies c.contains(
            #[trigger] (prev + tail)[i],
        ) by {
            if i < prev.len() {
                assert((prev + tail)[i] == prev[i]);
            } else {
                assert((prev + tail)[i] == tail[i - prev.len()]);
                broadcast use Seq::lemma_filter_contains_rev;

                assert(tail.contains(tail[i - prev.len()]));
            }
        }
    }
}

fn records_of(board: &Board, keys: &Vec<(u8, u8, u8)>) -> (r: Vec<RayAlignment>)
    requires
        forall|i: int|
            0 <= i < keys@.len() ==> {
                let e = #[trigger] keys@[i];
                &&& e.0 < 64 && e.1 < 64 && e.2 < 64
                &&& board.spec_piece_at(e.0 as int) is Some
                &&& board.spec_piece_at(e.1 as int) is Some
                &&& board.spec_piece_at(e.2 as int) is Some
            },
    ensures
        records_match(r@, *board, keys@),
{
    let mut r: Vec<RayAlignment> = Vec::new();
    let mut i: usize = 0;
    while i < keys.len()
        invariant
            i <= keys@.len(),
            r@.len() == i,
            forall|j: int|
                0 <= j < keys@.len() ==> {
                    let e = #[trigger] keys@[j];
                    &&& e.0 < 64 && e.1 < 64 && e.2 < 64
                    &&& board.spec_piece_at(e.0 as int) is Some
                    &&& board.spec_piece_at(e.1 as int) is Some
                    &&& board.spec_piece_at(e.2 as int) is Some
                },
            forall|j: int| 0 <= j < i ==> describes(#[trigger] r@[j], *board, keys@[j]),
        decreases keys.len() - i,
    {
        let rec = make_record(board, keys[i]);
        r.push(rec);
        i = i + 1;
    }
    r
}

/// The sorted alignments of one flavour.
fn flavour(board: &Board, side: Color, disc: bool, low: bool) -> (r: Vec<RayAlignment>)
    ensures
        records_match(r@, *board, key_buckets(candidates(*board, side, disc, low), 4096)),
{
    let mut c: Vec<(u8, u8, u8)> = Vec::new();
    collect_side(board, side, true, disc, low, &mut c);
    collect_side(board, side, false, disc, low, &mut c);
    proof {
        let a = sliders_upto(*board, side, true, disc, low, 64);
        let b = sliders_upto(*board, side, false, disc, low, 64);
        assert(c@ =~= a + b);
        lemma_sliders_in_range(*board, side, true, disc, low, 64);
        lemma_sliders_in_range(*board, side, false, disc, low, 64);
        lemma_wanted_kept(*board, side, true, disc, low, 64);
        lemma_wanted_kept(*board, side, false, disc, low, 64);
        assert forall|i: int| 0 <= i < c@.len() implies {
            let e = #[trigger] c@[i];
            &&& e.0 < 64 && e.1 < 64 && e.2 < 64
            &&& kept(*board, e.0 as int, e.1 as int, e.2 as int, low)
        } by {
            if i < a.len() {
                assert(c@[i] == a[i]);
            } else {
                assert(c@[i] == b[i - a.len()]);
            }
        }
    }
    let sorted = sort_by_squares(&c);
    proof {
        lemma_buckets_from(c@, 4096);
        assert forall|i: int| 0 <= i < sorted@.len() implies {
            let e = #[trigger] sorted@[i];
            &&& e.0 < 64 && e.1 < 64 && e.2 < 64
            &&& board.spec_piece_at(e.0 as int) is Some
            &&& board.spec_piece_at(e.1 as int) is Some
            &&& board.spec_piece_at(e.2 as int) is Some
        } by {
            let e = sorted@[i];
            assert(c@.contains(e));
            let j = choose|j: int| 0 <= j < c@.len() && c@[j] == e;
            assert(kept(*board, c@[j].0 as int, c@[j].1 as int, c@[j].2 as int, low));
        }
    }
    records_of(board, &sorted)
}

/// One side's alignments in `pos`: for each of `side`'s rooks, bishops and
/// queens, each line on which the slider sees a first piece (the blocker)
/// and, behind it, a second piece (the target). With an own blocker and an
/// enemy target the line is a discovered-attack candidate; with an enemy
/// blocker it is a pin / skewer candidate. Unless `include_low_value`, only
/// lines whose target is worth more than the blocker are kept. Each list
/// is ordered by slider square, then blocker square.
pub fn build_side(pos: &Position, side: Color, include_low_value: bool) -> (r: SideAlignments)
    ensures
        side_matches(r, pos.spec_setup().board, side, include_low_value),
{
    let board = &pos.setup().board;
    let mut name = String::new();
    push_str(&mut name, color_name(side));
    SideAlignments {
        side: name,
        discovered_attack_candidates: flavour(board, side, true, include_low_value),
        pin_skewer_candidates: flavour(board, side, false, include_low_value),
    }
}

/// The alignments of both sides of `pos`.
pub fn build(pos: &Position, include_low_value: bool) -> (r: AlignmentsView)
    ensures
        side_matches(r.white, pos.spec_setup().board, Color::White, include_low_value),
        side_matches(r.black, pos.spec_setup().board, Color::Black, include_low_value),
{
    AlignmentsView {
        white: build_side(pos, Color::White, include_low_value),
        black: build_side(pos, Color::Black, include_low_value),
    }
}

proof fn lemma_buckets_sorted(c: Seq<(u8, u8, u8)>, k: int)
    ensures
        forall|i: int|
            0 <= i < key_buckets(c, k).len() ==> spec_sort_key(#[trigger] key_buckets(c, k)[i]) < k,
        forall|i: int, j: int|
            0 <= i < j < key_buckets(c, k).len() ==> spec_sort_key(#[trigger] key_buckets(c, k)[i])
                <= spec_sort_key(#[trigger] key_buckets(c, k)[j]),
    decreases k,
{
    if k > 0 {
        lemma_buckets_sorted(c, k - 1);
        let prev = key_buckets(c, k - 1);
        let pred = |e: (u8, u8, u8)| spec_sort_key(e) == k - 1;
        let tail = c.filter(pred);
        c.filter_lemma(pred);
        let all = prev + tail;
        assert(key_buckets(c, k) == all);
        assert forall|i: int| 0 <= i < all.len() implies spec_sort_key(#[trigger] all[i]) < k by {
            if i < prev.len() {
                assert(all[i] == prev[i]);
            } else {
                assert(all[i] == tail[i - prev.len()]);
                assert(pred(tail[i - prev.len()]));
            }
        }
        assert forall|i: int, j: int| 0 <= i < j < all.len() implies spec_sort_key(
            #[trigger] all[i],
        ) <= spec_sort_key(#[trigger] all[j]) by {
            if j < prev.len() {
                assert(all[i] == prev[i]);
                assert(all[j] == prev[j]);
            } else if i < prev.len() {
                assert(all[i] == prev[i]);
                assert(all[j] == tail[j - prev.len()]);
                assert(pred(tail[j - prev.len()]));
            } else {
                assert(all[i] == tail[i - prev.len()]);
                assert(all[j] == tail[j - prev.len()]);
                assert(pred(tail[i - prev.len()]));
                assert(pred(tail[j - prev.len()]));
            }
        }
    }
}

proof fn lemma_key_lex(a1: int, b1: int, c1: int, d1: int, a2: int, b2: int, c2: int, d2: int)
    requires
        0 <= a1 < 8,
        0 <= b1 < 8,
        0 <= c1 < 8,
        0 <= d1 < 8,
        0 <= a2 < 8,
        0 <= b2 < 8,
        0 <= c2 < 8,
        0 <= d2 < 8,
        ((a1 * 8 + b1) * 8 + c1) * 8 + d1 <= ((a2 * 8 + b2) * 8 + c2) * 8 + d2,
    ensures
        a1 < a2 || (a1 == a2 && (b1 < b2 || (b1 == b2 && (c1 < c2 || (c1 == c2 && d1 <= d2))))),
{
}

/// Square names order by file letter, then rank digit: `a` before `b`
/// (file letter first, then rank), as the reports sort them.
pub open spec fn name_before(a: int, b: int) -> bool {
    file_of(a) < file_of(b) || (file_of(a) == file_of(b) && rank_of(a) <= rank_of(b))
}

/// The alignments of each list come in report order: by the slider's
/// square name (file letter, then rank), then, for the same slider, by the
/// blocker's; each is one of the scanned alignments.
pub proof fn law_alignments_in_report_order(b: Board, side: Color, disc: bool, low: bool)
    ensures
        ({
            let c = candidates(b, side, disc, low);
            let r = key_buckets(c, 4096);
            &&& forall|i: int, j: int|
                0 <= i < j < r.len() ==> {
                    let (x, y) = (#[trigger] r[i], #[trigger] r[j]);
                    ||| (name_before(x.0 as int, y.0 as int) && x.0 != y.0)
                    ||| (x.0 == y.0 && name_before(x.1 as int, y.1 as int))
                }
            &&& forall|i: int| 0 <= i < r.len() ==> c.contains(#[trigger] r[i])
        }),
{
    let c = candidates(b, side, disc, low);
    let r = key_buckets(c, 4096);
    lemma_buckets_sorted(c, 4096);
    lemma_buckets_from(c, 4096);
    let a = sliders_upto(b, side, true, disc, low, 64);
    let d = sliders_upto(b, side, false, disc, low, 64);
    lemma_sliders_in_range(b, side, true, disc, low, 64);
    lemma_sliders_in_range(b, side, false, disc, low, 64);
    assert forall|i: int| 0 <= i < r.len() implies (#[trigger] r[i]).0 < 64 && r[i].1 < 64 by {
        assert(c.contains(r[i]));
        let j = choose|j: int| 0 <= j < c.len() && c[j] == r[i];
        if j < a.len() {
            assert(c[j] == a[j]);
        } else {
            assert(c[j] == d[j - a.len()]);
        }
    }
    assert forall|i: int, j: int| 0 <= i < j < r.len() implies {
        let (x, y) = (#[trigger] r[i], #[trigger] r[j]);
        ||| (name_before(x.0 as int, y.0 as int) && x.0 != y.0)
        ||| (x.0 == y.0 && name_before(x.1 as int, y.1 as int))
    } by {
        let x = r[i];
        let y = r[j];
        assert(spec_sort_key(x) <= spec_sort_key(y));
        lemma_key_lex(
            file_of(x.0 as int),
            rank_of(x.0 as int),
            file_of(x.1 as int),
            rank_of(x.1 as int),
            file_of(y.0 as int),
            rank_of(y.0 as int),
            file_of(y.1 as int),
            rank_of(y.1 as int),
        );
        if file_of(x.0 as int) == file_of(y.0 as int) && rank_of(x.0 as int) == rank_of(y.0 as int) {
            assert(x.0 == y.0);
        }
    }
}

proof fn lemma_targets_wanted(
    b: Board,
    side: Color,
    orth: bool,
    disc: bool,
    low: bool,
    s: int,
    bsq: int,
    n: int,
)
    requires
        0 <= s < 64,
        0 <= bsq < 64,
        n <= 64,
    ensures
        forall|i: int|
            0 <= i < targets_upto(b, side, orth, disc, low, s, bsq, n).len() ==> {
                let e = #[trigger] targets_upto(b, side, orth, disc, low, s, bsq, n)[i];
                wanted(b, side, orth, disc, low, e.0 as int, e.1 as int, e.2 as int)
            },
    decreases n,
{
    if n > 0 {
        lemma_targets_wanted(b, side, orth, disc, low, s, bsq, n - 1);
        let prev = targets_upto(b, side, orth, disc, low, s, bsq, n - 1);
        let tail: Seq<(u8, u8, u8)> = if wanted(b, side, orth, disc, low, s, bsq, n - 1) {
            seq![(s as u8, bsq as u8, (n - 1) as u8)]
        } else {
            Seq::empty()
        };
        assert(targets_upto(b, side, orth, disc, low, s, bsq, n) == prev + tail);
        assert forall|i: int| 0 <= i < (prev + tail).len() implies {
            let e = #[trigger] (prev + tail)[i];
            wanted(b, side, orth, disc, low, e.0 as int, e.1 as int, e.2 as int)
        } by {
            if i < prev.len() {
                assert((prev + tail)[i] == prev[i]);
            } else {
                assert((prev + tail)[i] == tail[i - prev.len()]);
            }
        }
    }
}

proof fn lemma_blockers_wanted(b: Board, side: Color, orth: bool, disc: bool, low: bool, s: int, n: int)
    requires
        0 <= s < 64,
        n <= 64,
    ensures
        forall|i: int|
            0 <= i < blockers_upto(b, side, orth, disc, low, s, n).len() ==> {
                let e = #[trigger] blockers_upto(b, side, orth, disc, low, s, n)[i];
                wanted(b, side, orth, disc, low, e.0 as int, e.1 as int, e.2 as int)
            },
    decreases n,
{
    if n > 0 {
        lemma_blockers_wanted(b, side, orth, disc, low, s, n - 1);
        lemma_targets_wanted(b, side, orth, disc, low, s, n - 1, 64);
        let prev = blockers_upto(b, side, orth, disc, low, s, n - 1);
        let tail = targets_upto(b, side, orth, disc, low, s, n - 1, 64);
        assert forall|i: int| 0 <= i < (prev + tail).len() implies {
            let e = #[trigger] (prev + tail)[i];
            wanted(b, side, orth, disc, low, e.0 as int, e.1 as int, e.2 as int)
        } by {
            if i < prev.len() {
                assert((prev + tail)[i] == prev[i]);
            } else {
                assert((prev + tail)[i] == tail[i - prev.len()]);
            }
        }
    }
}

proof fn lemma_sliders_wanted(b: Board, side: Color, orth: bool, disc: bool, low: bool, n: int)
    requires
        n <= 64,
    ensures
        forall|i: int|
            0 <= i < sliders_upto(b, side, orth, disc, low, n).len() ==> {
                let e = #[trigger] sliders_upto(b, side, orth, disc, low, n)[i];
                wanted(b, side, orth, disc, low, e.0 as int, e.1 as int, e.2 as int)
            },
    decreases n,
{
    if n > 0 {
        lemma_sliders_wanted(b, side, orth, disc, low, n - 1);
        lemma_blockers_wanted(b, side, orth, disc, low, n - 1, 64);
        let prev = sliders_upto(b, side, orth, disc, low, n - 1);
        let tail = blockers_upto(b, side, orth, disc, low, n - 1, 64);
        assert forall|i: int| 0 <= i < (prev + tail).len() implies {
            let e = #[trigger] (prev + tail)[i];
            wanted(b, side, orth, disc, low, e.0 as int, e.1 as int, e.2 as int)
        } by {
            if i < prev.len() {
                assert((prev + tail)[i] == prev[i]);
            } else {
                assert((prev + tail)[i] == tail[i - prev.len()]);
            }
        }
    }
}

/// What an alignment of each flavour is made of, for every alignment a
/// side's report lists: the slider is one of `side`'s pieces; a
/// discovered-attack candidate has `side`'s own piece as its blocker and an
/// enemy piece as its target; a pin / skewer candidate has an enemy piece as
/// its blocker. The blocker and target are occupied squares.
pub proof fn law_alignment_flavours(r: SideAlignments, b: Board, side: Color, low: bool)
    requires
        side_matches(r, b, side, low),
    ensures
        ({
            let ours = b.spec_by_color(side);
            let enemy = b.spec_by_color(side.spec_other());
            let dk = key_buckets(candidates(b, side, true, low), 4096);
            let pk = key_buckets(candidates(b, side, false, low), 4096);
            &&& r.discovered_attack_candidates@.len() == dk.len()
            &&& forall|i: int|
                0 <= i < dk.len() ==> {
                    let e = #[trigger] dk[i];
                    &&& describes(r.discovered_attack_candidates@[i], b, e)
                    &&& bit(ours, e.0 as int)
                    &&& bit(ours, e.1 as int)
                    &&& bit(enemy, e.2 as int)
                    &&& bit(b.spec_occupied(), e.1 as int) && bit(b.spec_occupied(), e.2 as int)
                    &&& !low ==> spec_classical_points(b.spec_piece_at(e.2 as int).unwrap().role)
                        > spec_classical_points(b.spec_piece_at(e.1 as int).unwrap().role)
                }
            &&& r.pin_skewer_candidates@.len() == pk.len()
            &&& forall|i: int|
                0 <= i < pk.len() ==> {
                    let e = #[trigger] pk[i];
                    &&& describes(r.pin_skewer_candidates@[i], b, e)
                    &&& bit(ours, e.0 as int)
                    &&& !bit(ours, e.1 as int) && bit(enemy, e.1 as int)
                    &&& bit(b.spec_occupied(), e.1 as int) && bit(b.spec_occupied(), e.2 as int)
                    &&& !low ==> spec_classical_points(b.spec_piece_at(e.2 as int).unwrap().role)
                        > spec_classical_points(b.spec_piece_at(e.1 as int).unwrap().role)
                }
        }),
{
    assert forall|disc: bool| #![trigger candidates(b, side, disc, low)] forall|i: int|
        0 <= i < key_buckets(candidates(b, side, disc, low), 4096).len() ==> {
            let e = #[trigger] key_buckets(candidates(b, side, disc, low), 4096)[i];
            wanted(b, side, true, disc, low, e.0 as int, e.1 as int, e.2 as int) || wanted(
                b,
                side,
                false,
                disc,
                low,
                e.0 as int,
                e.1 as int,
                e.2 as int,
            )
        } by {
        let c = candidates(b, side, disc, low);
        let a = sliders_upto(b, side, true, disc, low, 64);
        let d = sliders_upto(b, side, false, disc, low, 64);
        lemma_sliders_wanted(b, side, true, disc, low, 64);
        lemma_sliders_wanted(b, side, false, disc, low, 64);
        lemma_buckets_from(c, 4096);
        assert forall|i: int| 0 <= i < key_buckets(c, 4096).len() implies {
            let e = #[trigger] key_buckets(c, 4096)[i];
            wanted(b, side, true, disc, low, e.0 as int, e.1 as int, e.2 as int) || wanted(
                b,
                side,
                false,
                disc,
                low,
                e.0 as int,
                e.1 as int,
                e.2 as int,
            )
        } by {
            let e = key_buckets(c, 4096)[i];
            assert(c.contains(e));
            let j = choose|j: int| 0 <= j < c.len() && c[j] == e;
            if j < a.len() {
                assert(c[j] == a[j]);
            } else {
                assert(c[j] == d[j - a.len()]);
            }
        }
    }
}

} // verus!
