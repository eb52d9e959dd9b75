//! Text rendering of the unified "what's vulnerable" report for both
//! sides: hanging pieces, SEE-losing pieces, pins, overloaded defenders
//! and trapped pieces.

use vstd::prelude::*;

use crate::bitboard::{
    abs_int, aligned, bishop_attack_set, bishop_attacks, bit, contains, diagonal_line, file_of,
    first_square, line_distance, lowest_from, lowest_square, rank_of, rook_attack_set, rook_attacks,
    spec_aligned, square_bb, straight_line,
};
use crate::position::{Board, Color, Position};
use crate::text::{decimal, joined, push_decimal, push_joined, push_str, texts};

verus! {

/// The full threats report, one [`SideThreats`] per colour.
#[derive(Debug, Clone)]
pub struct ThreatsView {
    pub white: SideThreats,
    pub black: SideThreats,
}

#[derive(Debug, Clone)]
pub struct SideThreats {
    /// "white" / "black".
    pub side: String,
    /// Attacked and undefended.
    pub hanging: Vec<HangingView>,
    /// Attacked and defended, but losing the trade.
    pub see_losing: Vec<HangingView>,
    /// Absolute and relative pins.
    pub pinned: Vec<PinnedView>,
    pub overloaded: Vec<OverloadedView>,
    pub trapped: Vec<TrappedView>,
}

#[derive(Debug, Clone)]
pub struct HangingView {
    /// e.g. "Bf5".
    pub piece: String,
    /// e.g. "bishop".
    pub piece_kind: String,
    pub square: String,
    pub classical_points: u8,
    /// e.g. ["qe6", "Ne4"].
    pub attackers: Vec<String>,
}

#[derive(Debug, Clone)]
pub struct PinnedView {
    pub piece: String,
    pub square: String,
    /// "absolute" / "relative".
    pub kind: String,
    pub pinner: String,
    pub pinned_to: String,
    /// SAN of a checking move that breaks the pin, when one exists: such a
    /// pin is nominal, it does not restrain the piece.
    pub escape_san: Option<String>,
}

#[derive(Debug, Clone)]
pub struct OverloadedView {
    pub piece: String,
    pub square: String,
    pub duties: Vec<String>,
}

#[derive(Debug, Clone)]
pub struct TrappedView {
    pub piece: String,
    pub square: String,
    /// Squares the piece could move to, all unsafe.
    pub cage_squares: Vec<String>,
}

pub open spec fn hanging_line(h: HangingView, verb: Seq<char>) -> Seq<char> {
    "    "@ + h.piece@ + " ("@ + decimal(h.classical_points as nat) + " pts) — "@ + verb + " "@
        + joined(texts(h.attackers@), ", "@) + "\n"@
}

pub open spec fn hanging_lines(v: Seq<HangingView>, verb: Seq<char>, k: int) -> Seq<char>
    decreases k,
{
    if k <= 0 {
        Seq::empty()
    } else {
        hanging_lines(v, verb, k - 1) + hanging_line(v[k - 1], verb)
    }
}

pub open spec fn pinned_line(p: PinnedView) -> Seq<char> {
    match p.escape_san {
        Some(esc) => "    "@ + p.piece@ + " — NOMINAL "@ + p.kind@ + " pin by "@ + p.pinner@
            + " (to "@ + p.pinned_to@ + "), but ESCAPABLE via "@ + esc@
            + " (a check): the pin does NOT restrain it\n"@,
        None => "    "@ + p.piece@ + " — "@ + p.kind@ + " pin by "@ + p.pinner@ + " (pinned to "@
            + p.pinned_to@ + ")\n"@,
    }
}

pub open spec fn pinned_lines(v: Seq<PinnedView>, k: int) -> Seq<char>
    decreases k,
{
    if k <= 0 {
        Seq::empty()
    } else {
        pinned_lines(v, k - 1) + pinned_line(v[k - 1])
    }
}

pub open spec fn overloaded_line(o: OverloadedView) -> Seq<char> {
    "    "@ + o.piece@ + " — sole defender of "@ + joined(texts(o.duties@), ", "@) + "\n"@
}

pub open spec fn overloaded_lines(v: Seq<OverloadedView>, k: int) -> Seq<char>
    decreases k,
{
    if k <= 0 {
        Seq::empty()
    } else {
        overloaded_lines(v, k - 1) + overloaded_line(v[k - 1])
    }
}

pub open spec fn trapped_line(t: TrappedView) -> Seq<char> {
    "    "@ + t.piece@ + " — no safe square (cage: "@ + joined(texts(t.cage_squares@), " "@)
        + ")\n"@
}

pub open spec fn trapped_lines(v: Seq<TrappedView>, k: int) -> Seq<char>
    decreases k,
{
    if k <= 0 {
        Seq::empty()
    } else {
        trapped_lines(v, k - 1) + trapped_line(v[k - 1])
    }
}

/// A section: its header with the count, then its lines; nothing when the
/// list is empty.
pub open spec fn section(title: Seq<char>, count: nat, lines: Seq<char>) -> Seq<char> {
    if count == 0 {
        Seq::empty()
    } else {
        "  "@ + title + " ("@ + decimal(count) + "):\n"@ + lines
    }
}

/// Whether one side's report lists nothing at all.
pub open spec fn side_is_quiet(s: SideThreats) -> bool {
    s.hanging@.len() == 0 && s.see_losing@.len() == 0 && s.pinned@.len() == 0
        && s.overloaded@.len() == 0 && s.trapped@.len() == 0
}

pub open spec fn hanging_section(s: SideThreats) -> Seq<char> {
    section("hanging"@, s.hanging@.len(), hanging_lines(s.hanging@, "attacked by"@, s.hanging@.len() as int))
}

pub open spec fn see_losing_section(s: SideThreats) -> Seq<char> {
    section(
        "SEE-losing"@,
        s.see_losing@.len(),
        hanging_lines(s.see_losing@, "losing trade vs"@, s.see_losing@.len() as int),
    )
}

pub open spec fn pinned_section(s: SideThreats) -> Seq<char> {
    section("pinned"@, s.pinned@.len(), pinned_lines(s.pinned@, s.pinned@.len() as int))
}

pub open spec fn overloaded_section(s: SideThreats) -> Seq<char> {
    section(
        "overloaded"@,
        s.overloaded@.len(),
        overloaded_lines(s.overloaded@, s.overloaded@.len() as int),
    )
}

pub open spec fn trapped_section(s: SideThreats) -> Seq<char> {
    section("trapped"@, s.trapped@.len(), trapped_lines(s.trapped@, s.trapped@.len() as int))
}

/// The text of one side's report.
pub open spec fn side_text(s: SideThreats) -> Seq<char> {
    if side_is_quiet(s) {
        s.side@ + ": (no threats found)\n"@
    } else {
        s.side@ + ":\n"@ + hanging_section(s) + see_losing_section(s) + pinned_section(s)
            + overloaded_section(s) + trapped_section(s)
    }
}

/// The text of the whole report: each side followed by a blank line.
pub open spec fn view_text(v: ThreatsView) -> Seq<char> {
    side_text(v.white) + "\n"@ + side_text(v.black) + "\n"@
}

fn push_hanging_line(out: &mut String, h: &HangingView, verb: &str)
    ensures
        final(out)@ == old(out)@ + hanging_line(*h, verb@),
{
    push_str(out, "    ");
    push_str(out, h.piece.as_str());
    push_str(out, " (");
    push_decimal(out, h.classical_points as u64);
    push_str(out, " pts) — ");
    push_str(out, verb);
    push_str(out, " ");
    push_joined(out, &h.attackers, ", ");
    push_str(out, "\n");
    assert(out@ =~= old(out)@ + hanging_line(*h, verb@));
}

fn push_pinned_line(out: &mut String, p: &PinnedView)
    ensures
        final(out)@ == old(out)@ + pinned_line(*p),
{
    match &p.escape_san {
        Some(esc) => {
            push_str(out, "    ");
            push_str(out, p.piece.as_str());
            push_str(out, " — NOMINAL ");
            push_str(out, p.kind.as_str());
            push_str(out, " pin by ");
            push_str(out, p.pinner.as_str());
            push_str(out, " (to ");
            push_str(out, p.pinned_to.as_str());
            push_str(out, "), but ESCAPABLE via ");
            push_str(out, esc.as_str());
            push_str(out, " (a check): the pin does NOT restrain it\n");
        },
        None => {
            push_str(out, "    ");
            push_str(out, p.piece.as_str());
            push_str(out, " — ");
            push_str(out, p.kind.as_str());
            push_str(out, " pin by ");
            push_str(out, p.pinner.as_str());
            push_str(out, " (pinned to ");
            push_str(out, p.pinned_to.as_str());
            push_str(out, ")\n");
        },
    }
    assert(out@ =~= old(out)@ + pinned_line(*p));
}

fn push_overloaded_line(out: &mut String, o: &OverloadedView)
    ensures
        final(out)@ == old(out)@ + overloaded_line(*o),
{
    push_str(out, "    ");
    push_str(out, o.piece.as_str());
    push_str(out, " — sole defender of ");
    push_joined(out, &o.duties, ", ");
    push_str(out, "\n");
    assert(out@ =~= old(out)@ + overloaded_line(*o));
}

fn push_trapped_line(out: &mut String, t: &TrappedView)
    ensures
        final(out)@ == old(out)@ + trapped_line(*t),
{
    push_str(out, "    ");
    push_str(out, t.piece.as_str());
    push_str(out, " — no safe square (cage: ");
    push_joined(out, &t.cage_squares, " ");
    push_str(out, ")\n");
    assert(out@ =~= old(out)@ + trapped_line(*t));
}

fn push_section_header(out: &mut String, title: &str, count: usize)
    ensures
        final(out)@ == old(out)@ + "  "@ + title@ + " ("@ + decimal(count as nat) + "):\n"@,
{
    push_str(out, "  ");
    push_str(out, title);
    push_str(out, " (");
    push_decimal(out, count as u64);
    push_str(out, "):\n");
}

fn push_hanging(out: &mut String, v: &Vec<HangingView>, title: &str, verb: &str)
    ensures
        final(out)@ == old(out)@ + section(title@, v@.len(), hanging_lines(v@, verb@, v@.len() as int)),
{
    if v.len() == 0 {
        assert(out@ =~= old(out)@ + section(title@, v@.len(), hanging_lines(v@, verb@, 0)));
        return;
    }
    push_section_header(out, title, v.len());
    let ghost head = out@;
    let mut i: usize = 0;
    while i < v.len()
        invariant
            i <= v@.len(),
            out@ == head + hanging_lines(v@, verb@, i as int),
        decreases v.len() - i,
    {
        push_hanging_line(out, &v[i], verb);
        i = i + 1;
        assert(out@ =~= head + hanging_lines(v@, verb@, i as int));
    }
    assert(out@ =~= old(out)@ + section(title@, v@.len(), hanging_lines(v@, verb@, v@.len() as int)));
}

fn push_pinned(out: &mut String, v: &Vec<PinnedView>)
    ensures
        final(out)@ == old(out)@ + section("pinned"@, v@.len(), pinned_lines(v@, v@.len() as int)),
{
    if v.len() == 0 {
        assert(out@ =~= old(out)@ + section("pinned"@, v@.len(), pinned_lines(v@, 0)));
        return;
    }
    push_section_header(out, "pinned", v.len());
    let ghost head = out@;
    let mut i: usize = 0;
    while i < v.len()
        invariant
            i <= v@.len(),
            out@ == head + pinned_lines(v@, i as int),
        decreases v.len() - i,
    {
        push_pinned_line(out, &v[i]);
        i = i + 1;
        assert(out@ =~= head + pinned_lines(v@, i as int));
    }
    assert(out@ =~= old(out)@ + section("pinned"@, v@.len(), pinned_lines(v@, v@.len() as int)));
}

fn push_overloaded(out: &mut String, v: &Vec<OverloadedView>)
    ensures
        final(out)@ == old(out)@ + section(
            "overloaded"@,
            v@.len(),
            overloaded_lines(v@, v@.len() as int),
        ),
{
    if v.len() == 0 {
        assert(out@ =~= old(out)@ + section("overloaded"@, v@.len(), overloaded_lines(v@, 0)));
        return;
    }
    push_section_header(out, "overloaded", v.len());
    let ghost head = out@;
    let mut i: usize = 0;
    while i < v.len()
        invariant
            i <= v@.len(),
            out@ == head + overloaded_lines(v@, i as int),
        decreases v.len() - i,
    {
        push_overloaded_line(out, &v[i]);
        i = i + 1;
        assert(out@ =~= head + overloaded_lines(v@, i as int));
    }
    assert(out@ =~= old(out)@ + section(
        "overloaded"@,
        v@.len(),
        overloaded_lines(v@, v@.len() as int),
    ));
}

fn push_trapped(out: &mut String, v: &Vec<TrappedView>)
    ensures
        final(out)@ == old(out)@ + section("trapped"@, v@.len(), trapped_lines(v@, v@.len() as int)),
{
    if v.len() == 0 {
        assert(out@ =~= old(out)@ + section("trapped"@, v@.len(), trapped_lines(v@, 0)));
        return;
    }
    push_section_header(out, "trapped", v.len());
    let ghost head = out@;
    let mut i: usize = 0;
    while i < v.len()
        invariant
            i <= v@.len(),
            out@ == head + trapped_lines(v@, i as int),
        decreases v.len() - i,
    {
        push_trapped_line(out, &v[i]);
        i = i + 1;
        assert(out@ =~= head + trapped_lines(v@, i as int));
    }
    assert(out@ =~= old(out)@ + section("trapped"@, v@.len(), trapped_lines(v@, v@.len() as int)));
}

/// Render one side's report.
fn render_side(out: &mut String, side: &SideThreats)
    ensures
        final(out)@ == old(out)@ + side_text(*side),
{
    if side.hanging.len() == 0 && side.see_losing.len() == 0 && side.pinned.len() == 0
        && side.overloaded.len() == 0 && side.trapped.len() == 0 {
        push_str(out, side.side.as_str());
        push_str(out, ": (no threats found)\n");
        assert(out@ =~= old(out)@ + side_text(*side));
        return;
    }
    push_str(out, side.side.as_str());
    push_str(out, ":\n");
    let ghost s0 = out@;
    push_hanging(out, &side.hanging, "hanging", "attacked by");
    let ghost s1 = out@;
    push_hanging(out, &side.see_losing, "SEE-losing", "losing trade vs");
    let ghost s2 = out@;
    push_pinned(out, &side.pinned);
    let ghost s3 = out@;
    push_overloaded(out, &side.overloaded);
    let ghost s4 = out@;
    push_trapped(out, &side.trapped);
    proof {
        reveal_strlit("hanging");
        reveal_strlit("attacked by");
        reveal_strlit("SEE-losing");
        reveal_strlit("losing trade vs");
        assert(s1 == s0 + hanging_section(*side));
        assert(s2 == s1 + see_losing_section(*side));
        assert(s3 == s2 + pinned_section(*side));
        assert(s4 == s3 + overloaded_section(*side));
        assert(out@ == s4 + trapped_section(*side));
        assert(out@ =~= old(out)@ + side_text(*side));
    }
}

/// Multi-line human-readable rendering: White's report, a blank line,
/// Black's report, a blank line.
pub fn render_text(view: &ThreatsView) -> (r: String)
    ensures
        r@ == view_text(*view),
{
    let mut out = String::new();
    render_side(&mut out, &view.white);
    push_str(&mut out, "\n");
    render_side(&mut out, &view.black);
    push_str(&mut out, "\n");
    assert(out@ =~= view_text(*view));
    out
}

/// `t` holds a piece of `enemy` that slides along the line from `t` to `s`:
/// a rook or queen on a shared rank or file, a bishop or queen on a
/// shared diagonal (whatever stands between).
pub open spec fn is_sniper(b: Board, s: int, t: int, enemy: u64) -> bool {
    bit(enemy, t) && ((straight_line(s, t) && (bit(b.rooks, t) || bit(b.queens, t))) || (
    diagonal_line(s, t) && (bit(b.bishops, t) || bit(b.queens, t))))
}

/// `x` lies strictly between `s` and `t` on their line.
pub open spec fn strictly_between(s: int, t: int, x: int) -> bool {
    &&& spec_aligned(s, t, x)
    &&& x != s && x != t
    &&& line_distance(s, x) + line_distance(x, t) == line_distance(s, t)
}

/// `x` stands between `s` and the sniper `t`: an occupied square that is
/// not itself one of `s`'s snipers.
pub open spec fn in_the_way(b: Board, s: int, t: int, x: int, enemy: u64) -> bool {
    strictly_between(s, t, x) && bit(b.spec_occupied(), x) && !is_sniper(b, s, x, enemy)
}

/// How many of the first `n` squares stand between `s` and `t`.
pub open spec fn way_count(b: Board, s: int, t: int, enemy: u64, n: int) -> nat
    decreases n,
{
    if n <= 0 {
        0
    } else {
        way_count(b, s, t, enemy, n - 1) + if in_the_way(b, s, t, n - 1, enemy) {
            1nat
        } else {
            0nat
        }
    }
}

/// The last of the first `n` squares that stands between `s` and `t`.
pub open spec fn way_last(b: Board, s: int, t: int, enemy: u64, n: int) -> int
    decreases n,
{
    if n <= 0 {
        -1
    } else if in_the_way(b, s, t, n - 1, enemy) {
        n - 1
    } else {
        way_last(b, s, t, enemy, n - 1)
    }
}

/// `x` is the one piece between `s` and the sniper `t`.
pub open spec fn lone_blocker(b: Board, s: int, t: int, x: int, enemy: u64) -> bool {
    is_sniper(b, s, t, enemy) && way_count(b, s, t, enemy, 64) == 1 && way_last(b, s, t, enemy, 64)
        == x
}

/// `x` alone shields `s` from some sniper among the first `n` squares.
pub open spec fn shields_upto(b: Board, s: int, x: int, enemy: u64, n: int) -> bool
    decreases n,
{
    n > 0 && (shields_upto(b, s, x, enemy, n - 1) || lone_blocker(b, s, n - 1, x, enemy))
}

/// `x` alone shields `s` from a sniper of `enemy`.
pub open spec fn shields(b: Board, s: int, x: int, enemy: u64) -> bool {
    shields_upto(b, s, x, enemy, 64)
}

/// The sniper `t` has exactly one piece between it and `s`, and that piece
/// belongs to `own`.
pub open spec fn is_pinner(b: Board, s: int, t: int, enemy: u64, own: u64) -> bool {
    is_sniper(b, s, t, enemy) && way_count(b, s, t, enemy, 64) == 1 && bit(
        own,
        way_last(b, s, t, enemy, 64),
    )
}

/// The square of `side`'s king (the lowest one), if it has one.
pub open spec fn king_of(b: Board, side: Color) -> Option<int> {
    let ks = b.kings & b.spec_by_color(side);
    if ks == 0 {
        None
    } else {
        Some(lowest_square(ks))
    }
}

/// Enemy sliders that see `origin` once `x` is lifted off the board.
pub open spec fn behind_set(b: Board, origin: int, x: int, enemy: u64) -> u64 {
    let occ = b.spec_occupied() ^ square_bb(x);
    ((rook_attack_set(origin, occ) & (b.rooks | b.queens)) | (bishop_attack_set(origin, occ) & (
    b.bishops | b.queens))) & enemy
}

/// `t` pins the piece on `x` to the piece on `origin`: it sees `origin`
/// through `x` on their line (and, for a relative pin, has `x` as its one
/// blocker against `origin`), and all three squares hold pieces.
pub open spec fn pin_candidate(b: Board, side: Color, origin: int, x: int, t: int, rel: bool) -> bool {
    let enemy = b.spec_by_color(side.spec_other());
    &&& bit(behind_set(b, origin, x, enemy), t)
    &&& (rel ==> is_pinner(b, origin, t, enemy, b.spec_by_color(side)))
    &&& spec_aligned(origin, x, t)
    &&& b.spec_piece_at(x) is Some
    &&& b.spec_piece_at(t) is Some
    &&& b.spec_piece_at(origin) is Some
}

/// The first pinner at or after square `t`.
pub open spec fn first_pinner(b: Board, side: Color, origin: int, x: int, rel: bool, t: int) -> Option<
    int,
>
    decreases 64 - t,
{
    if t < 0 || t >= 64 {
        None
    } else if pin_candidate(b, side, origin, x, t, rel) {
        Some(t)
    } else {
        first_pinner(b, side, origin, x, rel, t + 1)
    }
}

/// The pin of the piece on `x` to `origin`, when it has a pinner.
pub open spec fn pin_entry(b: Board, side: Color, origin: int, x: int, rel: bool) -> Seq<
    (u8, u8, u8, bool),
> {
    match first_pinner(b, side, origin, x, rel, 0) {
        Some(t) => seq![(x as u8, t as u8, origin as u8, !rel)],
        None => Seq::empty(),
    }
}

/// `x` alone shields `side`'s king from an enemy slider.
pub open spec fn abs_blocker(b: Board, side: Color, x: int) -> bool {
    king_of(b, side) matches Some(k) && shields(b, k, x, b.spec_by_color(side.spec_other()))
}

/// Absolute pins of the blockers among the first `n` squares.
pub open spec fn absolute_pins(b: Board, side: Color, n: int) -> Seq<(u8, u8, u8, bool)>
    decreases n,
{
    if n <= 0 {
        Seq::empty()
    } else {
        absolute_pins(b, side, n - 1) + if abs_blocker(b, side, n - 1) {
            pin_entry(b, side, king_of(b, side).unwrap(), n - 1, false)
        } else {
            Seq::empty()
        }
    }
}

/// Relative pins to the queen on `q` of the blockers among the first `n`
/// squares that are not absolute blockers.
pub open spec fn queen_pins(b: Board, side: Color, q: int, n: int) -> Seq<(u8, u8, u8, bool)>
    decreases n,
{
    if n <= 0 {
        Seq::empty()
    } else {
        queen_pins(b, side, q, n - 1) + if shields(
            b,
            q,
            n - 1,
            b.spec_by_color(side.spec_other()),
        ) && !abs_blocker(b, side, n - 1) {
            pin_entry(b, side, q, n - 1, true)
        } else {
            Seq::empty()
        }
    }
}

/// Relative pins to `side`'s queens among the first `n` squares.
pub open spec fn relative_pins(b: Board, side: Color, n: int) -> Seq<(u8, u8, u8, bool)>
    decreases n,
{
    if n <= 0 {
        Seq::empty()
    } else {
        relative_pins(b, side, n - 1) + if bit(b.queens & b.spec_by_color(side), n - 1) {
            queen_pins(b, side, n - 1, 64)
        } else {
            Seq::empty()
        }
    }
}

/// `side`'s pinned pieces as `(blocker, pinner, pinned-to, absolute)`:
/// first the absolute pins to the king, blockers in square order, then the
/// relative pins to each queen in square order, blockers in square order,
/// skipping blockers already pinned to the king.
pub open spec fn spec_pins(b: Board, side: Color) -> Seq<(u8, u8, u8, bool)> {
    absolute_pins(b, side, 64) + relative_pins(b, side, 64)
}

/// File and rank distances between two squares.
fn distances(a: u8, c: u8) -> (r: (i16, i16))
    requires
        a < 64,
        c < 64,
    ensures
        r.0 == abs_int(file_of(c as int) - file_of(a as int)),
        r.1 == abs_int(rank_of(c as int) - rank_of(a as int)),
{
    let df = (c % 8) as i16 - (a % 8) as i16;
    let dr = (c / 8) as i16 - (a / 8) as i16;
    (if df < 0 {
        -df
    } else {
        df
    }, if dr < 0 {
        -dr
    } else {
        dr
    })
}

fn sniper_at(board: &Board, s: u8, t: u8, enemy: u64) -> (r: bool)
    requires
        s < 64,
        t < 64,
    ensures
        r == is_sniper(*board, s as int, t as int, enemy),
{
    let (df, dr) = distances(s, t);
    let straight = (df == 0 && dr > 0) || (dr == 0 && df > 0);
    let diagonal = df == dr && df > 0;
    contains(enemy, t) && ((straight && (contains(board.rooks, t) || contains(board.queens, t))) || (
    diagonal && (contains(board.bishops, t) || contains(board.queens, t))))
}

fn between_squares(s: u8, t: u8, x: u8) -> (r: bool)
    requires
        s < 64,
        t < 64,
        x < 64,
    ensures
        r == strictly_between(s as int, t as int, x as int),
{
    if !aligned(s, t, x) || x == s || x == t {
        return false;
    }
    let (f1, r1) = distances(s, x);
    let (f2, r2) = distances(x, t);
    let (f3, r3) = distances(s, t);
    let d1 = if f1 > r1 {
        f1
    } else {
        r1
    };
    let d2 = if f2 > r2 {
        f2
    } else {
        r2
    };
    let d3 = if f3 > r3 {
        f3
    } else {
        r3
    };
    d1 + d2 == d3
}

/// The one piece between `s` and `t`, if exactly one stands there.
fn lone_way(board: &Board, s: u8, t: u8, enemy: u64) -> (r: Option<u8>)
    requires
        s < 64,
        t < 64,
    ensures
        r == (if way_count(*board, s as int, t as int, enemy, 64) == 1 {
            Some(way_last(*board, s as int, t as int, enemy, 64) as u8)
        } else {
            None::<u8>
        }),
        r matches Some(x) ==> x < 64 && x == way_last(*board, s as int, t as int, enemy, 64),
{
    let occ = board.occupied();
    let mut count: u8 = 0;
    let mut last: u8 = 0;
    let mut x: u8 = 0;
    while x < 64
        invariant
            x <= 64,
            s < 64,
            t < 64,
            occ == board.spec_occupied(),
            count == way_count(*board, s as int, t as int, enemy, x as int),
            count <= x,
            count > 0 ==> last < x && last == way_last(*board, s as int, t as int, enemy, x as int),
            count == 0 ==> way_last(*board, s as int, t as int, enemy, x as int) == -1,
        decreases 64 - x,
    {
        if between_squares(s, t, x) && contains(occ, x) && !sniper_at(board, s, x, enemy) {
            count = count + 1;
            last = x;
        }
        x = x + 1;
    }
    if count == 1 {
        Some(last)
    } else {
        None
    }
}

/// For each square: whether it alone shields `s` from a sniper of
/// `enemy`, and whether it is a sniper whose one blocker belongs to `own`.
fn slider_blockers(board: &Board, s: u8, enemy: u64, own: u64) -> (r: (Vec<bool>, Vec<bool>))
    requires
        s < 64,
    ensures
        r.0@.len() == 64,
        r.1@.len() == 64,
        forall|x: int| 0 <= x < 64 ==> #[trigger] r.0@[x] == shields(*board, s as int, x, enemy),
        forall|t: int|
            0 <= t < 64 ==> #[trigger] r.1@[t] == is_pinner(*board, s as int, t, enemy, own),
{
    let mut blockers: Vec<bool> = Vec::new();
    let mut pinners: Vec<bool> = Vec::new();
    let mut k: u8 = 0;
    while k < 64
        invariant
            k <= 64,
            blockers@.len() == k,
            forall|x: int| 0 <= x < k ==> #[trigger] blockers@[x] == false,
        decreases 64 - k,
    {
        blockers.push(false);
        k = k + 1;
    }
    let mut t: u8 = 0;
    while t < 64
        invariant
            t <= 64,
            s < 64,
            blockers@.len() == 64,
            pinners@.len() == t,
            forall|x: int|
                0 <= x < 64 ==> #[trigger] blockers@[x] == shields_upto(
                    *board,
                    s as int,
                    x,
                    enemy,
                    t as int,
                ),
            forall|u: int|
                0 <= u < t ==> #[trigger] pinners@[u] == is_pinner(*board, s as int, u, enemy, own),
        decreases 64 - t,
    {
        let mut pins = false;
        if sniper_at(board, s, t, enemy) {
            match lone_way(board, s, t, enemy) {
                Some(x) => {
                    blockers.set(x as usize, true);
                    pins = contains(own, x);
                },
                None => {},
            }
        }
        pinners.push(pins);
        t = t + 1;
    }
    (blockers, pinners)
}

/// The first pinner of the piece on `x` to the piece on `origin`; for a
/// relative pin, `pinners` flags the snipers of `origin` with one blocker
/// of `side`.
fn find_pinner(board: &Board, side: Color, origin: u8, x: u8, rel: bool, pinners: &Vec<bool>) -> (r: Option<u8>)
    requires
        origin < 64,
        x < 64,
        pinners@.len() == 64,
        rel ==> forall|t: int|
            0 <= t < 64 ==> #[trigger] pinners@[t] == is_pinner(
                *board,
                origin as int,
                t,
                board.spec_by_color(side.spec_other()),
                board.spec_by_color(side),
            ),
    ensures
        r == (match first_pinner(*board, side, origin as int, x as int, rel, 0) {
            Some(t) => Some(t as u8),
            None => None::<u8>,
        }),
        r matches Some(t) ==> t < 64,
{
    let enemy = board.by_color(side.other());
    let occ = board.occupied() ^ (1u64 << (x as u64));
    let behind = ((rook_attacks(origin, occ) & (board.rooks | board.queens)) | (bishop_attacks(
        origin,
        occ,
    ) & (board.bishops | board.queens))) & enemy;
    let mut t: u8 = 0;
    while t < 64
        invariant
            t <= 64,
            origin < 64,
            x < 64,
            pinners@.len() == 64,
            rel ==> forall|u: int|
                0 <= u < 64 ==> #[trigger] pinners@[u] == is_pinner(
                    *board,
                    origin as int,
                    u,
                    board.spec_by_color(side.spec_other()),
                    board.spec_by_color(side),
                ),
            enemy == board.spec_by_color(side.spec_other()),
            behind == behind_set(*board, origin as int, x as int, enemy),
            first_pinner(*board, side, origin as int, x as int, rel, 0) == first_pinner(
                *board,
                side,
                origin as int,
                x as int,
                rel,
                t as int,
            ),
        decreases 64 - t,
    {
        let ok = contains(behind, t) && (!rel || pinners[t as usize]) && aligned(origin, x, t)
            && board.piece_at(x).is_some() && board.piece_at(t).is_some() && board.piece_at(
            origin,
        ).is_some();
        assert(ok == pin_candidate(*board, side, origin as int, x as int, t as int, rel));
        if ok {
            return Some(t);
        }
        t = t + 1;
    }
    None
}

proof fn lemma_lowest_from_range(bb: u64, i: int)
    requires
        0 <= i <= 64,
    ensures
        i <= lowest_from(bb, i) <= 64,
    decreases 64 - i,
{
    if i < 64 {
        lemma_lowest_from_range(bb, i + 1);
    }
}

/// `side`'s pinned pieces in `pos` as `(blocker, pinner, pinned-to,
/// absolute)`: absolute pins to the king, then relative pins to each
/// queen (see `spec_pins`).
pub fn pins_of(pos: &Position, side: Color) -> (r: Vec<(u8, u8, u8, bool)>)
    ensures
        r@ == spec_pins(pos.spec_setup().board, side),
{
    let board = &pos.setup().board;
    let ours = board.by_color(side);
    let enemy = board.by_color(side.other());
    let mut out: Vec<(u8, u8, u8, bool)> = Vec::new();
    let king = first_square(board.kings & ours);
    let mut none: Vec<bool> = Vec::new();
    let mut k: u8 = 0;
    while k < 64
        invariant
            k <= 64,
            none@.len() == k,
            forall|x: int| 0 <= x < k ==> #[trigger] none@[x] == false,
        decreases 64 - k,
    {
        none.push(false);
        k = k + 1;
    }
    let ghost b = *board;
    proof {
        lemma_lowest_from_range(board.kings & ours, 0);
    }
    let abs_flags: Vec<bool> = match king {
        Some(ks) => {
            let (bl, _) = slider_blockers(board, ks, enemy, ours);
            assert(king_of(b, side) == Some(ks as int));
            bl
        },
        None => none,
    };
    assert forall|x: int| 0 <= x < 64 implies #[trigger] abs_flags@[x] == abs_blocker(b, side, x) by {}
    let mut x: u8 = 0;
    while x < 64
        invariant
            x <= 64,
            b == pos.spec_setup().board,
            *board == b,
            ours == b.spec_by_color(side),
            enemy == b.spec_by_color(side.spec_other()),
            king == (match king_of(b, side) {
                Some(q) => Some(q as u8),
                None => None::<u8>,
            }),
            king matches Some(q) ==> q < 64 && king_of(b, side) == Some(q as int),
            abs_flags@.len() == 64,
            forall|y: int| 0 <= y < 64 ==> #[trigger] abs_flags@[y] == abs_blocker(b, side, y),
            out@ == absolute_pins(b, side, x as int),
        decreases 64 - x,
    {
        if abs_flags[x as usize] {
            let ks = king.unwrap();
            match find_pinner(board, side, ks, x, false, &abs_flags) {
                Some(t) => {
                    out.push((x, t, ks, true));
                },
                None => {},
            }
        }
        x = x + 1;
        assert(out@ =~= absolute_pins(b, side, x as int));
    }
    let ghost abs_part = out@;
    let my_queens = board.queens & ours;
    let mut q: u8 = 0;
    while q < 64
        invariant
            q <= 64,
            *board == b,
            ours == b.spec_by_color(side),
            enemy == b.spec_by_color(side.spec_other()),
            my_queens == b.queens & b.spec_by_color(side),
            abs_flags@.len() == 64,
            forall|y: int| 0 <= y < 64 ==> #[trigger] abs_flags@[y] == abs_blocker(b, side, y),
            out@ == abs_part + relative_pins(b, side, q as int),
        decreases 64 - q,
    {
        if contains(my_queens, q) {
            let (bl, pn) = slider_blockers(board, q, enemy, ours);
            let ghost before = out@;
            let mut y: u8 = 0;
            while y < 64
                invariant
                    y <= 64,
                    q < 64,
                    *board == b,
                    enemy == b.spec_by_color(side.spec_other()),
                    ours == b.spec_by_color(side),
                    bl@.len() == 64,
                    pn@.len() == 64,
                    forall|z: int| 0 <= z < 64 ==> #[trigger] bl@[z] == shields(b, q as int, z, enemy),
                    forall|z: int|
                        0 <= z < 64 ==> #[trigger] pn@[z] == is_pinner(b, q as int, z, enemy, ours),
                    abs_flags@.len() == 64,
                    forall|z: int| 0 <= z < 64 ==> #[trigger] abs_flags@[z] == abs_blocker(b, side, z),
                    out@ == before + queen_pins(b, side, q as int, y as int),
                decreases 64 - y,
            {
                if bl[y as usize] && !abs_flags[y as usize] {
                    match find_pinner(board, side, q, y, true, &pn) {
                        Some(t) => {
                            out.push((y, t, q, false));
                        },
                        None => {},
                    }
                }
                y = y + 1;
                assert(out@ =~= before + queen_pins(b, side, q as int, y as int));
            }
        }
        q = q + 1;
        assert(out@ =~= abs_part + relative_pins(b, side, q as int));
    }
    out
}

proof fn lemma_way_unique(b: Board, s: int, t: int, enemy: u64, x: int, n: int)
    requires
        0 <= x < 64,
        0 <= n <= 64,
        in_the_way(b, s, t, x, enemy),
        forall|y: int| 0 <= y < 64 && y != x ==> !#[trigger] in_the_way(b, s, t, y, enemy),
    ensures
        way_count(b, s, t, enemy, n) == (if x < n {
            1nat
        } else {
            0nat
        }),
        way_last(b, s, t, enemy, n) == (if x < n {
            x
        } else {
            -1
        }),
    decreases n,
{
    if n > 0 {
        lemma_way_unique(b, s, t, enemy, x, n - 1);
    }
}

proof fn lemma_shields_from(b: Board, s: int, x: int, enemy: u64, t: int, n: int)
    requires
        0 <= t < n,
        lone_blocker(b, s, t, x, enemy),
    ensures
        shields_upto(b, s, x, enemy, n),
    decreases n,
{
    if n > t + 1 {
        lemma_shields_from(b, s, x, enemy, t, n - 1);
    }
}

/// A line with one piece in the way makes a pin: when an enemy rook or
/// queen shares a rank or file with `origin`, or an enemy bishop or queen
/// shares a diagonal with it, and exactly one square strictly between them
/// is occupied, by a piece of `side`, that piece shields `origin` and the
/// enemy slider pins it there; when `origin` is `side`'s king the piece is
/// an absolute blocker.
pub proof fn law_one_piece_between_is_pinned(b: Board, side: Color, origin: int, t: int, x: int)
    requires
        0 <= origin < 64,
        0 <= t < 64,
        0 <= x < 64,
        bit(b.spec_by_color(side.spec_other()), t),
        (straight_line(origin, t) && (bit(b.rooks, t) || bit(b.queens, t))) || (diagonal_line(
            origin,
            t,
        ) && (bit(b.bishops, t) || bit(b.queens, t))),
        strictly_between(origin, t, x),
        bit(b.spec_by_color(side), x),
        !bit(b.spec_by_color(side.spec_other()), x),
        forall|y: int|
            0 <= y < 64 && y != x && #[trigger] strictly_between(origin, t, y) ==> !bit(
                b.spec_occupied(),
                y,
            ),
    ensures
        is_sniper(b, origin, t, b.spec_by_color(side.spec_other())),
        shields(b, origin, x, b.spec_by_color(side.spec_other())),
        is_pinner(b, origin, t, b.spec_by_color(side.spec_other()), b.spec_by_color(side)),
        king_of(b, side) == Some(origin) ==> abs_blocker(b, side, x),
{
    let enemy = b.spec_by_color(side.spec_other());
    assert(bit(b.spec_occupied(), x)) by {
        let ours = b.spec_by_color(side);
        assert(side == Color::White ==> ours == b.white);
        assert(side == Color::Black ==> ours == b.black);
        let xx = x as u64;
        let w = b.white;
        let k = b.black;
        assert((w & (1u64 << xx)) != 0 ==> ((w | k) & (1u64 << xx)) != 0) by (bit_vector);
        assert((k & (1u64 << xx)) != 0 ==> ((w | k) & (1u64 << xx)) != 0) by (bit_vector);
    }
    assert(in_the_way(b, origin, t, x, enemy));
    assert forall|y: int| 0 <= y < 64 && y != x implies !#[trigger] in_the_way(
        b,
        origin,
        t,
        y,
        enemy,
    ) by {
        if in_the_way(b, origin, t, y, enemy) {
            assert(strictly_between(origin, t, y));
        }
    }
    lemma_way_unique(b, origin, t, enemy, x, 64);
    lemma_shields_from(b, origin, x, enemy, t, 64);
}

/// What a listed pin `(x, t, o, absolute)` of `side` is: `t` is an enemy
/// slider on the line through `o` and `x`, behind `x`, and all three squares
/// hold pieces; `x` alone shields `o` from an enemy slider; an absolute pin
/// is to `side`'s king, a relative one to one of `side`'s queens, by a slider
/// whose one blocker is `side`'s, and never of a piece already pinned to the
/// king.
pub open spec fn pin_entry_holds(b: Board, side: Color, e: (u8, u8, u8, bool)) -> bool {
    let enemy = b.spec_by_color(side.spec_other());
    let (x, t, o, absolute) = e;
    &&& bit(enemy, t as int)
    &&& spec_aligned(o as int, x as int, t as int)
    &&& b.spec_piece_at(x as int) is Some && b.spec_piece_at(t as int) is Some && b.spec_piece_at(
        o as int,
    ) is Some
    &&& shields(b, o as int, x as int, enemy)
    &&& absolute ==> king_of(b, side) == Some(o as int)
    &&& !absolute ==> bit(b.queens & b.spec_by_color(side), o as int) && !abs_blocker(
        b,
        side,
        x as int,
    ) && is_pinner(b, o as int, t as int, enemy, b.spec_by_color(side))
}

proof fn lemma_entry(b: Board, side: Color, o: int, x: int, rel: bool)
    requires
        0 <= o <= 64,
        0 <= x < 64,
        shields(b, o, x, b.spec_by_color(side.spec_other())),
        !rel ==> king_of(b, side) == Some(o),
        rel ==> bit(b.queens & b.spec_by_color(side), o) && !abs_blocker(b, side, x),
    ensures
        forall|i: int|
            0 <= i < pin_entry(b, side, o, x, rel).len() ==> pin_entry_holds(
                b,
                side,
                #[trigger] pin_entry(b, side, o, x, rel)[i],
            ),
{
    lemma_first_pinner(b, side, o, x, rel, 0);
    if let Some(t) = first_pinner(b, side, o, x, rel, 0) {
        let e = (x as u8, t as u8, o as u8, !rel);
        assert(pin_entry(b, side, o, x, rel) == seq![e]);
        assert(e.0 as int == x && e.1 as int == t && e.2 as int == o);
        assert(pin_candidate(b, side, o, x, t, rel));
        let enemy = b.spec_by_color(side.spec_other());
        let occ = b.spec_occupied() ^ square_bb(x);
        let lines = (rook_attack_set(o, occ) & (b.rooks | b.queens)) | (bishop_attack_set(o, occ) & (
        b.bishops | b.queens));
        let tt = t as u64;
        assert((lines & enemy) & (1u64 << tt) != 0 ==> enemy & (1u64 << tt) != 0) by (bit_vector);
        assert(pin_entry_holds(b, side, e));
    }
}

proof fn lemma_first_pinner(b: Board, side: Color, o: int, x: int, rel: bool, t: int)
    requires
        0 <= t <= 64,
    ensures
        first_pinner(b, side, o, x, rel, t) matches Some(u) ==> t <= u < 64 && pin_candidate(
            b,
            side,
            o,
            x,
            u,
            rel,
        ),
    decreases 64 - t,
{
    if t < 64 {
        lemma_first_pinner(b, side, o, x, rel, t + 1);
    }
}

proof fn lemma_absolute_pins(b: Board, side: Color, n: int)
    requires
        0 <= n <= 64,
    ensures
        forall|i: int|
            0 <= i < absolute_pins(b, side, n).len() ==> pin_entry_holds(
                b,
                side,
                #[trigger] absolute_pins(b, side, n)[i],
            ) && absolute_pins(b, side, n)[i].3,
    decreases n,
{
    if n > 0 {
        lemma_absolute_pins(b, side, n - 1);
        let prev = absolute_pins(b, side, n - 1);
        let tail: Seq<(u8, u8, u8, bool)> = if abs_blocker(b, side, n - 1) {
            pin_entry(b, side, king_of(b, side).unwrap(), n - 1, false)
        } else {
            Seq::empty()
        };
        if abs_blocker(b, side, n - 1) {
            let k = king_of(b, side).unwrap();
            lemma_lowest_from_range(b.kings & b.spec_by_color(side), 0);
            lemma_entry(b, side, k, n - 1, false);
            lemma_first_pinner(b, side, k, n - 1, false, 0);
        }
        assert forall|i: int| 0 <= i < (prev + tail).len() implies pin_entry_holds(
            b,
            side,
            #[trigger] (prev + tail)[i],
        ) && (prev + tail)[i].3 by {
            if i < prev.len() {
                assert((prev + tail)[i] == prev[i]);
            } else {
                assert((prev + tail)[i] == tail[i - prev.len()]);
            }
        }
    }
}

proof fn lemma_queen_pins(b: Board, side: Color, q: int, n: int)
    requires
        0 <= q < 64,
        0 <= n <= 64,
        bit(b.queens & b.spec_by_color(side), q),
    ensures
        forall|i: int|
            0 <= i < queen_pins(b, side, q, n).len() ==> pin_entry_holds(
                b,
                side,
                #[trigger] queen_pins(b, side, q, n)[i],
            ) && !queen_pins(b, side, q, n)[i].3,
    decreases n,
{
    if n > 0 {
        lemma_queen_pins(b, side, q, n - 1);
        let prev = queen_pins(b, side, q, n - 1);
        let enemy = b.spec_by_color(side.spec_other());
        let tail: Seq<(u8, u8, u8, bool)> = if shields(b, q, n - 1, enemy) && !abs_blocker(
            b,
            side,
            n - 1,
        ) {
            pin_entry(b, side, q, n - 1, true)
        } else {
            Seq::empty()
        };
        if shields(b, q, n - 1, enemy) && !abs_blocker(b, side, n - 1) {
            lemma_entry(b, side, q, n - 1, true);
            lemma_first_pinner(b, side, q, n - 1, true, 0);
        }
        assert forall|i: int| 0 <= i < (prev + tail).len() implies pin_entry_holds(
            b,
            side,
            #[trigger] (prev + tail)[i],
        ) && !(prev + tail)[i].3 by {
            if i < prev.len() {
                assert((prev + tail)[i] == prev[i]);
            } else {
                assert((prev + tail)[i] == tail[i - prev.len()]);
            }
        }
    }
}

proof fn lemma_relative_pins(b: Board, side: Color, n: int)
    requires
        0 <= n <= 64,
    ensures
        forall|i: int|
            0 <= i < relative_pins(b, side, n).len() ==> pin_entry_holds(
                b,
                side,
                #[trigger] relative_pins(b, side, n)[i],
            ) && !relative_pins(b, side, n)[i].3,
    decreases n,
{
    if n > 0 {
        lemma_relative_pins(b, side, n - 1);
        let prev = relative_pins(b, side, n - 1);
        let tail: Seq<(u8, u8, u8, bool)> = if bit(b.queens & b.spec_by_color(side), n - 1) {
            queen_pins(b, side, n - 1, 64)
        } else {
            Seq::empty()
        };
        if bit(b.queens & b.spec_by_color(side), n - 1) {
            lemma_queen_pins(b, side, n - 1, 64);
        }
        assert forall|i: int| 0 <= i < (prev + tail).len() implies pin_entry_holds(
            b,
            side,
            #[trigger] (prev + tail)[i],
        ) && !(prev + tail)[i].3 by {
            if i < prev.len() {
                assert((prev + tail)[i] == prev[i]);
            } else {
                assert((prev + tail)[i] == tail[i - prev.len()]);
            }
        }
    }
}

/// Every pin in `side`'s list is a pin (see `pin_entry_holds`), and the
/// absolute pins to the king come before the relative ones.
pub proof fn law_pin_entries(b: Board, side: Color)
    ensures
        forall|i: int|
            0 <= i < spec_pins(b, side).len() ==> pin_entry_holds(
                b,
                side,
                #[trigger] spec_pins(b, side)[i],
            ),
        forall|i: int, j: int|
            0 <= i < j < spec_pins(b, side).len() && (#[trigger] spec_pins(b, side)[j]).3
                ==> (#[trigger] spec_pins(b, side)[i]).3,
{
    let a = absolute_pins(b, side, 64);
    let r = relative_pins(b, side, 64);
    lemma_absolute_pins(b, side, 64);
    lemma_relative_pins(b, side, 64);
    assert forall|i: int| 0 <= i < (a + r).len() implies pin_entry_holds(
        b,
        side,
        #[trigger] (a + r)[i],
    ) && ((a + r)[i].3 <==> i < a.len()) by {
        if i < a.len() {
            assert((a + r)[i] == a[i]);
        } else {
            assert((a + r)[i] == r[i - a.len()]);
        }
    }
}

proof fn lemma_way_count_pos(b: Board, s: int, t: int, enemy: u64, y: int, n: int)
    requires
        0 <= y < n,
        in_the_way(b, s, t, y, enemy),
    ensures
        way_count(b, s, t, enemy, n) >= 1,
    decreases n,
{
    if y < n - 1 {
        lemma_way_count_pos(b, s, t, enemy, y, n - 1);
    }
}

proof fn lemma_way_only(b: Board, s: int, t: int, enemy: u64, y: int, n: int)
    requires
        0 <= y < n,
        in_the_way(b, s, t, y, enemy),
        way_count(b, s, t, enemy, n) == 1,
    ensures
        way_last(b, s, t, enemy, n) == y,
    decreases n,
{
    if in_the_way(b, s, t, n - 1, enemy) {
        if y < n - 1 {
            lemma_way_count_pos(b, s, t, enemy, y, n - 1);
        }
    } else {
        lemma_way_only(b, s, t, enemy, y, n - 1);
    }
}

proof fn lemma_shield_witness(b: Board, s: int, x: int, enemy: u64, n: int) -> (t: int)
    requires
        shields_upto(b, s, x, enemy, n),
    ensures
        0 <= t < n,
        lone_blocker(b, s, t, x, enemy),
    decreases n,
{
    if shields_upto(b, s, x, enemy, n - 1) {
        lemma_shield_witness(b, s, x, enemy, n - 1)
    } else {
        n - 1
    }
}

/// A piece shields `s` only when it is the one piece between `s` and an
/// enemy slider aimed along their line: every other occupied square
/// strictly between them holds another such slider.
pub proof fn law_shield_is_lone(b: Board, s: int, x: int, enemy: u64)
    requires
        shields(b, s, x, enemy),
    ensures
        exists|t: int|
            0 <= t < 64 && #[trigger] is_sniper(b, s, t, enemy) && strictly_between(s, t, x) && bit(
                b.spec_occupied(),
                x,
            ) && forall|y: int|
                0 <= y < 64 && y != x && strictly_between(s, t, y) && bit(b.spec_occupied(), y)
                    ==> is_sniper(b, s, y, enemy),
{
    let t = lemma_shield_witness(b, s, x, enemy, 64);
    assert(way_last(b, s, t, enemy, 64) == x);
    lemma_count_has_last(b, s, t, enemy, 64);
    assert(in_the_way(b, s, t, x, enemy)) by {
        lemma_way_last_in(b, s, t, enemy, 64);
    }
    assert forall|y: int|
        0 <= y < 64 && y != x && strictly_between(s, t, y) && bit(b.spec_occupied(), y) implies is_sniper(
        b,
        s,
        y,
        enemy,
    ) by {
        if !is_sniper(b, s, y, enemy) {
            lemma_way_only(b, s, t, enemy, y, 64);
        }
    }
    assert(is_sniper(b, s, t, enemy));
}

proof fn lemma_count_has_last(b: Board, s: int, t: int, enemy: u64, n: int)
    ensures
        way_count(b, s, t, enemy, n) > 0 ==> 0 <= way_last(b, s, t, enemy, n) < n,
    decreases n,
{
    if n > 0 {
        lemma_count_has_last(b, s, t, enemy, n - 1);
    }
}

proof fn lemma_way_last_in(b: Board, s: int, t: int, enemy: u64, n: int)
    ensures
        way_last(b, s, t, enemy, n) != -1 ==> in_the_way(b, s, t, way_last(b, s, t, enemy, n), enemy),
    decreases n,
{
    if n > 0 {
        lemma_way_last_in(b, s, t, enemy, n - 1);
    }
}

} // verus!
