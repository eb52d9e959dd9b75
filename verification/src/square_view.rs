//! Text rendering of the per-square dossier: the occupant, who attacks
//! and who defends the square, the occupant's pin, the discovered
//! attacks it would unmask by moving, and the SEE verdict on capturing
//! it. Also the names of the lines through two squares, and the side
//! labels the views use.

use vstd::prelude::*;

use crate::position::Color;
use crate::text::{chars_of, decimal, joined, push_char, push_decimal, push_str, same_chars};

verus! {

/// The per-square report.
#[derive(Debug, Clone)]
pub struct SquareView {
    pub square: String,
    /// The piece on the square, when there is one.
    pub occupant: Option<OccupantView>,
    /// Pieces of either colour that attack the square.
    pub attackers: Vec<AttackerView>,
    /// The attackers of the occupant's colour; `None` for an empty square.
    pub defenders: Option<Vec<AttackerView>>,
    /// The occupant's pin, when it is pinned.
    pub pin: Option<PinView>,
    /// Discovered attacks the occupant would unmask by moving.
    pub discovered_attacks_when_moved: Vec<DiscoveredAttackView>,
    /// SEE verdict for the cheapest capture of the occupant.
    pub see_for_cheapest_capture: Option<SeeVerdictView>,
}

#[derive(Debug, Clone)]
pub struct OccupantView {
    /// e.g. "Be5".
    pub label: String,
    /// e.g. "bishop".
    pub piece: String,
    /// e.g. "black".
    pub color: String,
    pub classical_points: u8,
}

#[derive(Debug, Clone)]
pub struct AttackerView {
    /// e.g. "Qc4".
    pub label: String,
    pub piece: String,
    pub color: String,
    pub square: String,
}

#[derive(Debug, Clone)]
pub struct PinView {
    /// "absolute" (against the king) or "relative".
    pub kind: String,
    pub pinner: AttackerView,
    pub pinned_to: String,
    /// e.g. "e-file".
    pub ray: String,
}

#[derive(Debug, Clone)]
pub struct DiscoveredAttackView {
    /// The slider behind the occupant.
    pub discoverer: AttackerView,
    /// The enemy piece on the other side.
    pub target: AttackerView,
    pub ray: String,
}

#[derive(Debug, Clone)]
pub struct SeeVerdictView {
    pub cheapest_attacker: AttackerView,
    /// "wins", "loses" or "even", for the capturing side.
    pub verdict: String,
}

// ---------------------------------------------------------------------
// Lines through two squares (squares numbered 0..64, a1 = 0, file-major
// within a rank).

/// The letter of file `f` (0 = 'a').
pub open spec fn spec_file_letter(f: int) -> char {
    ('a' as int + f) as char
}

pub fn file_letter(file_idx: u8) -> (c: char)
    requires
        file_idx < 8,
    ensures
        c == spec_file_letter(file_idx as int),
{
    (97u8 + file_idx) as char
}

pub open spec fn file_of(sq: int) -> int {
    sq % 8
}

pub open spec fn rank_of(sq: int) -> int {
    sq / 8
}

pub open spec fn abs_diff(a: int, b: int) -> int {
    if a < b {
        b - a
    } else {
        a - b
    }
}

pub open spec fn square_text(sq: int) -> Seq<char> {
    seq![spec_file_letter(file_of(sq)), ('1' as int + rank_of(sq)) as char]
}

/// The name of the line through `a` and `b`: their file, their rank, or
/// the diagonal's direction; any other pair is named by its squares.
pub open spec fn spec_ray_name(a: int, b: int) -> Seq<char> {
    if file_of(a) == file_of(b) {
        seq![spec_file_letter(file_of(a))] + "-file"@
    } else if rank_of(a) == rank_of(b) {
        decimal((rank_of(a) + 1) as nat) + "th rank"@
    } else if abs_diff(rank_of(a), rank_of(b)) == abs_diff(file_of(a), file_of(b)) {
        if (rank_of(a) < rank_of(b)) == (file_of(a) < file_of(b)) {
            "a1-h8 diagonal"@
        } else {
            "a8-h1 diagonal"@
        }
    } else {
        "ray "@ + square_text(a) + "-"@ + square_text(b)
    }
}

fn push_square(out: &mut String, sq: u8)
    requires
        sq < 64,
    ensures
        final(out)@ == old(out)@ + square_text(sq as int),
{
    push_char(out, file_letter(sq % 8));
    push_char(out, (49u8 + sq / 8) as char);
    assert(out@ =~= old(out)@ + square_text(sq as int));
}

pub fn ray_name(a: u8, b: u8) -> (r: String)
    requires
        a < 64,
        b < 64,
    ensures
        r@ == spec_ray_name(a as int, b as int),
{
    let (fa, fb, ra, rb) = (a % 8, b % 8, a / 8, b / 8);
    let mut out = String::new();
    if fa == fb {
        push_char(&mut out, file_letter(fa));
        push_str(&mut out, "-file");
    } else if ra == rb {
        push_decimal(&mut out, (ra + 1) as u64);
        push_str(&mut out, "th rank");
    } else {
        let dr = if ra < rb {
            rb - ra
        } else {
            ra - rb
        };
        let df = if fa < fb {
            fb - fa
        } else {
            fa - fb
        };
        if dr == df {
            if (ra < rb) == (fa < fb) {
                push_str(&mut out, "a1-h8 diagonal");
            } else {
                push_str(&mut out, "a8-h1 diagonal");
            }
        } else {
            push_str(&mut out, "ray ");
            push_square(&mut out, a);
            push_str(&mut out, "-");
            push_square(&mut out, b);
        }
    }
    assert(out@ =~= spec_ray_name(a as int, b as int));
    out
}

// ---------------------------------------------------------------------
// The text.

/// An attacker as listed: "Qc4 (white queen)".
pub open spec fn attacker_text(a: AttackerView) -> Seq<char> {
    a.label@ + " ("@ + a.color@ + " "@ + a.piece@ + ")"@
}

pub open spec fn attacker_texts(v: Seq<AttackerView>) -> Seq<Seq<char>> {
    Seq::new(v.len(), |i: int| attacker_text(v[i]))
}

pub open spec fn occupant_line(view: SquareView) -> Seq<char> {
    match view.occupant {
        Some(occ) => view.square@ + ": "@ + occ.color@ + " "@ + occ.piece@ + "  ("@ + occ.label@
            + ")\n"@,
        None => view.square@ + ": (empty square)\n"@,
    }
}

pub open spec fn attackers_line(view: SquareView) -> Seq<char> {
    if view.attackers@.len() == 0 {
        "  attacked by:    (no attackers)\n"@
    } else {
        "  "@ + (if view.occupant is Some {
            "attacked by:    "@
        } else {
            "attackable by:  "@
        }) + joined(attacker_texts(view.attackers@), ", "@) + "\n"@
    }
}

pub open spec fn defenders_line(view: SquareView) -> Seq<char> {
    match view.defenders {
        Some(defs) => if defs@.len() == 0 {
            "  defended by:    (no defenders)\n"@
        } else {
            "  defended by:    "@ + joined(attacker_texts(defs@), ", "@) + "\n"@
        },
        None => Seq::empty(),
    }
}

pub open spec fn pin_line(view: SquareView) -> Seq<char> {
    match view.pin {
        Some(p) => "  pin status:     "@ + p.kind@ + " pin by "@ + p.pinner.label@ + " (pinned to "@
            + p.pinned_to@ + " along "@ + p.ray@ + ")\n"@,
        None => if view.occupant is Some {
            "  pin status:     not pinned\n"@
        } else {
            Seq::empty()
        },
    }
}

pub open spec fn discovery_line(d: DiscoveredAttackView, square: Seq<char>) -> Seq<char> {
    "    "@ + d.discoverer.label@ + " → "@ + d.target.label@ + " along "@ + d.ray@
        + "  (moving the piece on "@ + square + " unblocks "@ + d.target.label@ + ")\n"@
}

pub open spec fn discovery_lines(
    v: Seq<DiscoveredAttackView>,
    square: Seq<char>,
    k: int,
) -> Seq<char>
    decreases k,
{
    if k <= 0 {
        Seq::empty()
    } else {
        discovery_lines(v, square, k - 1) + discovery_line(v[k - 1], square)
    }
}

pub open spec fn discovery_block(view: SquareView) -> Seq<char> {
    let v = view.discovered_attacks_when_moved@;
    if v.len() == 0 {
        Seq::empty()
    } else {
        "  is discovery vehicle for:\n"@ + discovery_lines(v, view.square@, v.len() as int)
    }
}

pub open spec fn see_line(view: SquareView) -> Seq<char> {
    match view.see_for_cheapest_capture {
        Some(see) => "  SEE on capture: "@ + see.cheapest_attacker.label@ + " captures here → "@
            + see.verdict@ + "  (cheapest attacker)\n"@,
        None => Seq::empty(),
    }
}

/// The dossier: the occupant line, then each part that applies.
pub open spec fn view_text(view: SquareView) -> Seq<char> {
    occupant_line(view) + attackers_line(view) + defenders_line(view) + pin_line(view)
        + discovery_block(view) + see_line(view)
}

fn push_attacker(out: &mut String, a: &AttackerView)
    ensures
        final(out)@ == old(out)@ + attacker_text(*a),
{
    push_str(out, a.label.as_str());
    push_str(out, " (");
    push_str(out, a.color.as_str());
    push_str(out, " ");
    push_str(out, a.piece.as_str());
    push_str(out, ")");
    assert(out@ =~= old(out)@ + attacker_text(*a));
}

/// Append the attackers as listed, joined by ", ".
fn push_attackers(out: &mut String, v: &Vec<AttackerView>)
    ensures
        final(out)@ == old(out)@ + joined(attacker_texts(v@), ", "@),
{
    let mut i: usize = 0;
    while i < v.len()
        invariant
            i <= v@.len(),
            out@ == old(out)@ + joined(attacker_texts(v@.subrange(0, i as int)), ", "@),
        decreases v.len() - i,
    {
        if i > 0 {
            push_str(out, ", ");
        }
        push_attacker(out, &v[i]);
        proof {
            let t = attacker_texts(v@.subrange(0, i + 1));
            assert(t.drop_last() =~= attacker_texts(v@.subrange(0, i as int)));
            assert(t.last() == attacker_text(v@[i as int]));
            if i == 0 {
                assert(joined(attacker_texts(v@.subrange(0, 0)), ", "@) =~= Seq::<char>::empty());
            }
            assert(out@ =~= old(out)@ + joined(t, ", "@));
        }
        i = i + 1;
    }
    assert(v@.subrange(0, v@.len() as int) =~= v@);
}

fn push_occupant_line(out: &mut String, view: &SquareView)
    ensures
        final(out)@ == old(out)@ + occupant_line(*view),
{
    push_str(out, view.square.as_str());
    match &view.occupant {
        Some(occ) => {
            push_str(out, ": ");
            push_str(out, occ.color.as_str());
            push_str(out, " ");
            push_str(out, occ.piece.as_str());
            push_str(out, "  (");
            push_str(out, occ.label.as_str());
            push_str(out, ")\n");
        },
        None => {
            push_str(out, ": (empty square)\n");
        },
    }
    assert(out@ =~= old(out)@ + occupant_line(*view));
}

fn push_attackers_line(out: &mut String, view: &SquareView)
    ensures
        final(out)@ == old(out)@ + attackers_line(*view),
{
    if view.attackers.len() == 0 {
        push_str(out, "  attacked by:    (no attackers)\n");
        return;
    }
    push_str(out, "  ");
    if view.occupant.is_some() {
        push_str(out, "attacked by:    ");
    } else {
        push_str(out, "attackable by:  ");
    }
    push_attackers(out, &view.attackers);
    push_str(out, "\n");
    assert(out@ =~= old(out)@ + attackers_line(*view));
}

fn push_defenders_line(out: &mut String, view: &SquareView)
    ensures
        final(out)@ == old(out)@ + defenders_line(*view),
{
    match &view.defenders {
        Some(defs) => {
            if defs.len() == 0 {
                push_str(out, "  defended by:    (no defenders)\n");
            } else {
                push_str(out, "  defended by:    ");
                push_attackers(out, defs);
                push_str(out, "\n");
            }
        },
        None => {},
    }
    assert(out@ =~= old(out)@ + defenders_line(*view));
}

fn push_pin_line(out: &mut String, view: &SquareView)
    ensures
        final(out)@ == old(out)@ + pin_line(*view),
{
    match &view.pin {
        Some(p) => {
            push_str(out, "  pin status:     ");
            push_str(out, p.kind.as_str());
            push_str(out, " pin by ");
            push_str(out, p.pinner.label.as_str());
            push_str(out, " (pinned to ");
            push_str(out, p.pinned_to.as_str());
            push_str(out, " along ");
            push_str(out, p.ray.as_str());
            push_str(out, ")\n");
        },
        None => {
            if view.occupant.is_some() {
                push_str(out, "  pin status:     not pinned\n");
            }
        },
    }
    assert(out@ =~= old(out)@ + pin_line(*view));
}

fn push_discovery_line(out: &mut String, d: &DiscoveredAttackView, square: &str)
    ensures
        final(out)@ == old(out)@ + discovery_line(*d, square@),
{
    push_str(out, "    ");
    push_str(out, d.discoverer.label.as_str());
    push_str(out, " → ");
    push_str(out, d.target.label.as_str());
    push_str(out, " along ");
    push_str(out, d.ray.as_str());
    push_str(out, "  (moving the piece on ");
    push_str(out, square);
    push_str(out, " unblocks ");
    push_str(out, d.target.label.as_str());
    push_str(out, ")\n");
    assert(out@ =~= old(out)@ + discovery_line(*d, square@));
}

fn push_discovery_block(out: &mut String, view: &SquareView)
    ensures
        final(out)@ == old(out)@ + discovery_block(*view),
{
    let v = &view.discovered_attacks_when_moved;
    if v.len() == 0 {
        assert(out@ =~= old(out)@ + discovery_block(*view));
        return;
    }
    push_str(out, "  is discovery vehicle for:\n");
    let ghost head = out@;
    let mut i: usize = 0;
    while i < v.len()
        invariant
            i <= v@.len(),
            out@ == head + discovery_lines(v@, view.square@, i as int),
        decreases v.len() - i,
    {
        push_discovery_line(out, &v[i], view.square.as_str());
        i = i + 1;
        assert(out@ =~= head + discovery_lines(v@, view.square@, i as int));
    }
    assert(out@ =~= old(out)@ + discovery_block(*view));
}

fn push_see_line(out: &mut String, view: &SquareView)
    ensures
        final(out)@ == old(out)@ + see_line(*view),
{
    match &view.see_for_cheapest_capture {
        Some(see) => {
            push_str(out, "  SEE on capture: ");
            push_str(out, see.cheapest_attacker.label.as_str());
            push_str(out, " captures here → ");
            push_str(out, see.verdict.as_str());
            push_str(out, "  (cheapest attacker)\n");
        },
        None => {},
    }
    assert(out@ =~= old(out)@ + see_line(*view));
}

/// Multi-line rendering of the dossier. Labels stay in place when a part
/// is empty ("(no attackers)", "not pinned"), so what is missing reads
/// as plainly as what is there.
pub fn render_text(view: &SquareView) -> (r: String)
    ensures
        r@ == view_text(*view),
{
    let mut out = String::new();
    push_occupant_line(&mut out, view);
    push_attackers_line(&mut out, view);
    push_defenders_line(&mut out, view);
    push_pin_line(&mut out, view);
    push_discovery_block(&mut out, view);
    push_see_line(&mut out, view);
    assert(out@ =~= view_text(*view));
    out
}

/// A colour's name in lower case.
pub open spec fn color_label(c: Color) -> Seq<char> {
    match c {
        Color::White => "white"@,
        Color::Black => "black"@,
    }
}

/// A colour's name in lower case, as the views label sides.
pub fn lower_color(c: Color) -> (r: String)
    ensures
        r@ == color_label(c),
{
    let mut out = String::new();
    match c {
        Color::White => push_str(&mut out, "white"),
        Color::Black => push_str(&mut out, "black"),
    }
    proof {
        assert(out@ =~= color_label(c));
    }
    out
}

/// The colour of a side label: white for `white`, black for anything
/// else.
pub fn color_from_label(label: &str) -> (r: Color)
    ensures
        r == (if label@ == "white"@ {
            Color::White
        } else {
            Color::Black
        }),
{
    let cs = chars_of(label);
    if same_chars(&cs, "white") {
        Color::White
    } else {
        Color::Black
    }
}

} // verus!
