//! The position-summary header printed before every FEN-taking command:
//! side to move, check, material, score, standing dangers, opening,
//! legal move count and game end.

use vstd::prelude::*;

use crate::analysis::lemma_count_bound;
use crate::bitboard::{popcount, square_count};
use crate::position::{Board, Color, Position};
use crate::text::{
    decimal, joined, plus_decimal, push_decimal, push_plus_signed, push_signed, push_str,
    signed_decimal,
};

verus! {

/// Where the header's score comes from: a one-ply static eval, or a
/// search to some depth.
#[derive(Clone, Copy, Debug)]
pub enum ScoreSource {
    /// One-ply static eval (`[static]` tag).
    Static,
    /// Deep search to the given depth (`[search d=N]` tag).
    Search { depth: u32 },
}

/// The header's data, with the fields the text shows.
#[derive(Debug, Clone)]
pub struct PositionSummary {
    pub fen: String,
    pub to_move: &'static str,
    pub in_check: bool,
    pub material: MaterialBlock,
    pub score: ScoreBlock,
    pub opening: Option<OpeningBlock>,
    pub legal_move_count: usize,
    pub terminal: Option<&'static str>,
    /// Standing threats the opponent has against the side to move.
    pub danger: Vec<DangerLine>,
}

/// One standing threat of the header's `danger:` block.
#[derive(Debug, Clone)]
pub struct DangerLine {
    /// Pattern name.
    pub pattern: String,
    /// The piece the threat bears on.
    pub target: String,
    /// Classical-points estimate of what the opponent wins.
    pub min_gain: i32,
    /// The opponent move that fires it, in words.
    pub trigger: String,
}

#[derive(Debug, Clone)]
pub struct MaterialBlock {
    /// "even", "white +N" or "black +N".
    pub balance: String,
    /// e.g. "Q+2R+B+7P".
    pub white_summary: String,
    pub black_summary: String,
    pub white_points: u32,
    pub black_points: u32,
}

#[derive(Debug, Clone)]
pub struct ScoreBlock {
    /// Score in pawns from White's point of view.
    pub pawns_white_pov: String,
    /// The same in conventional centipawns.
    pub conv_cp_white_pov: String,
    /// White's win-probability estimate, 0..100.
    pub win_pct_white: u8,
    pub source: ScoreSourceJson,
    /// Engine-internal centipawns, signed for the side to move.
    pub engine_cp_stm: i32,
    /// Engine-internal centipawns, signed for White.
    pub engine_cp_white_pov: i32,
}

#[derive(Debug, Clone)]
pub enum ScoreSourceJson {
    Static,
    Search { depth: u32 },
}

#[derive(Debug, Clone)]
pub struct OpeningBlock {
    pub eco: String,
    pub name: String,
}

// ---------------------------------------------------------------------
// Material.

/// Number of pieces of `color` in the set `role_set`.
pub open spec fn count_of(b: Board, role_set: u64, color: Color) -> nat {
    popcount(role_set & b.spec_by_color(color))
}

/// `[Q, R, B, N, P]` counts of `color`; kings are left out.
pub open spec fn spec_piece_counts(b: Board, color: Color) -> Seq<nat> {
    seq![
        count_of(b, b.queens, color),
        count_of(b, b.rooks, color),
        count_of(b, b.bishops, color),
        count_of(b, b.knights, color),
        count_of(b, b.pawns, color),
    ]
}

fn count_set(set: u64) -> (r: u32)
    ensures
        r == popcount(set),
{
    proof {
        lemma_count_bound(set, 0);
    }
    square_count(set) as u32
}

/// The `[Q, R, B, N, P]` counts of `color` in `pos`.
pub fn piece_counts(pos: &Position, c: Color) -> (r: [u32; 5])
    ensures
        r@.len() == 5,
        forall|i: int| 0 <= i < 5 ==> r@[i] == spec_piece_counts(pos.spec_setup().board, c)[i],
{
    let b = pos.setup().board;
    let own = b.by_color(c);
    let r = [
        count_set(b.queens & own),
        count_set(b.rooks & own),
        count_set(b.bishops & own),
        count_set(b.knights & own),
        count_set(b.pawns & own),
    ];
    assert(r@.len() == 5);
    r
}

/// Conventional 9/5/3/3/1 points of `[Q, R, B, N, P]` counts.
pub open spec fn spec_points(c: Seq<u32>) -> int {
    c[0] * 9 + c[1] * 5 + c[2] * 3 + c[3] * 3 + c[4]
}

pub fn points_total(counts: &[u32; 5]) -> (r: u32)
    requires
        spec_points(counts@) <= u32::MAX,
    ensures
        r == spec_points(counts@),
{
    counts[0] * 9 + counts[1] * 5 + counts[2] * 3 + counts[3] * 3 + counts[4]
}

pub open spec fn piece_letter(i: int) -> Seq<char> {
    if i == 0 {
        "Q"@
    } else if i == 1 {
        "R"@
    } else if i == 2 {
        "B"@
    } else if i == 3 {
        "N"@
    } else {
        "P"@
    }
}

/// The non-zero counts as parts: "Q" for one, "2R" for more.
pub open spec fn summary_parts(c: Seq<u32>, k: int) -> Seq<Seq<char>>
    decreases k,
{
    if k <= 0 {
        Seq::empty()
    } else {
        let rest = summary_parts(c, k - 1);
        let n = c[k - 1];
        if n == 0 {
            rest
        } else if n == 1 {
            rest.push(piece_letter(k - 1))
        } else {
            rest.push(decimal(n as nat) + piece_letter(k - 1))
        }
    }
}

/// The counts as "Q+2R+B+7P"; "K only" when nothing but the king is left.
pub open spec fn spec_piece_summary(c: Seq<u32>) -> Seq<char> {
    let parts = summary_parts(c, 5);
    if parts.len() == 0 {
        "K only"@
    } else {
        joined(parts, "+"@)
    }
}

fn letter_of(i: usize) -> (r: &'static str)
    requires
        i < 5,
    ensures
        r@ == piece_letter(i as int),
{
    if i == 0 {
        "Q"
    } else if i == 1 {
        "R"
    } else if i == 2 {
        "B"
    } else if i == 3 {
        "N"
    } else {
        "P"
    }
}

pub fn format_piece_summary(counts: &[u32; 5]) -> (r: String)
    ensures
        r@ == spec_piece_summary(counts@),
{
    let mut out = String::new();
    let mut any = false;
    let mut i: usize = 0;
    while i < 5
        invariant
            i <= 5,
            counts@.len() == 5,
            any == (summary_parts(counts@, i as int).len() > 0),
            out@ == joined(summary_parts(counts@, i as int), "+"@),
        decreases 5 - i,
    {
        let n = counts[i];
        let ghost before = summary_parts(counts@, i as int);
        if n != 0 {
            if any {
                push_str(&mut out, "+");
            }
            if n != 1 {
                push_decimal(&mut out, n as u64);
            }
            push_str(&mut out, letter_of(i));
            any = true;
            proof {
                let after = summary_parts(counts@, i + 1);
                assert(after.drop_last() =~= before);
                if before.len() == 0 {
                    assert(joined(before, "+"@) =~= Seq::<char>::empty());
                }
                assert(out@ =~= joined(after, "+"@));
            }
        }
        i = i + 1;
    }
    if !any {
        return String::from_str("K only");
    }
    out
}

/// Material balance in points: "even", or the side ahead and by how much.
pub open spec fn spec_balance(white: int, black: int) -> Seq<char> {
    if white == black {
        "even"@
    } else if white > black {
        "white +"@ + decimal((white - black) as nat)
    } else {
        "black +"@ + decimal((black - white) as nat)
    }
}

/// The material block of a board.
pub open spec fn spec_material(b: Board) -> (Seq<char>, Seq<char>, Seq<char>, int, int) {
    let w = spec_piece_counts(b, Color::White);
    let k = spec_piece_counts(b, Color::Black);
    let wp = (w[0] * 9 + w[1] * 5 + w[2] * 3 + w[3] * 3 + w[4]) as int;
    let bp = (k[0] * 9 + k[1] * 5 + k[2] * 3 + k[3] * 3 + k[4]) as int;
    (spec_balance(wp, bp), spec_summary_of(w), spec_summary_of(k), wp, bp)
}

/// `spec_piece_summary` of counts given as naturals.
pub open spec fn spec_summary_of(c: Seq<nat>) -> Seq<char> {
    spec_piece_summary(Seq::new(5, |i: int| c[i] as u32))
}

/// Counts, points and balance of both sides' material in `pos`.
pub fn build_material_block(pos: &Position) -> (r: MaterialBlock)
    ensures
        (r.balance@, r.white_summary@, r.black_summary@, r.white_points as int, r.black_points as int)
            == spec_material(pos.spec_setup().board),
{
    let white_counts = piece_counts(pos, Color::White);
    let black_counts = piece_counts(pos, Color::Black);
    proof {
        let b = pos.spec_setup().board;
        lemma_count_bound(b.queens & b.white, 0);
        lemma_count_bound(b.rooks & b.white, 0);
        lemma_count_bound(b.bishops & b.white, 0);
        lemma_count_bound(b.knights & b.white, 0);
        lemma_count_bound(b.pawns & b.white, 0);
        lemma_count_bound(b.queens & b.black, 0);
        lemma_count_bound(b.rooks & b.black, 0);
        lemma_count_bound(b.bishops & b.black, 0);
        lemma_count_bound(b.knights & b.black, 0);
        lemma_count_bound(b.pawns & b.black, 0);
    }
    let white_points = points_total(&white_counts);
    let black_points = points_total(&black_counts);
    let mut balance = String::new();
    if white_points == black_points {
        push_str(&mut balance, "even");
    } else if white_points > black_points {
        push_str(&mut balance, "white +");
        push_decimal(&mut balance, (white_points - black_points) as u64);
    } else {
        push_str(&mut balance, "black +");
        push_decimal(&mut balance, (black_points - white_points) as u64);
    }
    let white_summary = format_piece_summary(&white_counts);
    let black_summary = format_piece_summary(&black_counts);
    proof {
        let b = pos.spec_setup().board;
        let w = spec_piece_counts(b, Color::White);
        let k = spec_piece_counts(b, Color::Black);
        assert(white_counts@ =~= Seq::new(5, |i: int| w[i] as u32));
        assert(black_counts@ =~= Seq::new(5, |i: int| k[i] as u32));
        assert(balance@ =~= spec_balance(white_points as int, black_points as int));
    }
    MaterialBlock { balance, white_summary, black_summary, white_points, black_points }
}

// ---------------------------------------------------------------------
// The header text.

/// The engine-cp number of the score line, with its sign (`+372`).
pub open spec fn cp_label(v: int) -> Seq<char> {
    plus_decimal(v)
}

pub open spec fn source_label(s: ScoreSourceJson) -> Seq<char> {
    match s {
        ScoreSourceJson::Static => "static"@,
        ScoreSourceJson::Search { depth } => "search d="@ + decimal(depth as nat),
    }
}

pub open spec fn head_lines(s: PositionSummary) -> Seq<char> {
    "position: "@ + s.fen@ + "\n"@ + "to move:  "@ + s.to_move@ + "\n"@ + "in check: "@ + (if s.in_check {
        "yes"@
    } else {
        "no"@
    }) + "\n"@
}

pub open spec fn material_line(m: MaterialBlock) -> Seq<char> {
    "material: "@ + m.balance@ + "   (W: "@ + m.white_summary@ + " = "@ + decimal(
        m.white_points as nat,
    ) + "  vs  B: "@ + m.black_summary@ + " = "@ + decimal(m.black_points as nat) + ")\n"@
}

pub open spec fn score_line(sc: ScoreBlock) -> Seq<char> {
    "score:    "@ + sc.pawns_white_pov@ + " pawns white-POV  (engine-cp: "@ + cp_label(
        sc.engine_cp_stm as int,
    ) + " stm; ~"@ + decimal(sc.win_pct_white as nat) + "% win)  ["@ + source_label(sc.source)
        + "]\n"@
}

pub open spec fn danger_line(d: DangerLine) -> Seq<char> {
    "            - opponent's "@ + d.pattern@ + " on your "@ + d.target@ + " (~"@ + signed_decimal(
        d.min_gain as int,
    ) + " pts) — fires when "@ + d.trigger@ + "\n"@
}

pub open spec fn danger_lines(v: Seq<DangerLine>, k: int) -> Seq<char>
    decreases k,
{
    if k <= 0 {
        Seq::empty()
    } else {
        danger_lines(v, k - 1) + danger_line(v[k - 1])
    }
}

pub open spec fn danger_block(s: PositionSummary) -> Seq<char> {
    let v = s.danger@;
    if v.len() == 0 {
        Seq::empty()
    } else {
        "danger:   !! "@ + decimal(v.len()) + " standing threat(s) against "@ + s.to_move@
            + " (side to move) — a move that ignores these will likely swing the eval against you:\n"@
            + danger_lines(v, v.len() as int)
            + "          (static scan; confirm with `chess-tutor tactics --latent` or `chess-tutor explain`)\n"@
    }
}

pub open spec fn tail_lines(s: PositionSummary) -> Seq<char> {
    (match s.opening {
        Some(op) => "opening:  "@ + op.eco@ + "  "@ + op.name@ + "\n"@,
        None => "opening:  (none matched)\n"@,
    }) + "legal:    "@ + decimal(s.legal_move_count as nat) + " moves\n"@ + match s.terminal {
        Some(t) => "terminal: "@ + t@ + "\n"@,
        None => Seq::empty(),
    }
}

/// The header: position, side to move, check, material, score, the
/// danger block when there is a standing threat, opening, legal move
/// count, and how the game ended when it has.
pub open spec fn summary_text(s: PositionSummary) -> Seq<char> {
    head_lines(s) + material_line(s.material) + score_line(s.score) + danger_block(s) + tail_lines(s)
}

fn push_head_lines(out: &mut String, s: &PositionSummary)
    ensures
        final(out)@ == old(out)@ + head_lines(*s),
{
    push_str(out, "position: ");
    push_str(out, s.fen.as_str());
    push_str(out, "\n");
    push_str(out, "to move:  ");
    push_str(out, s.to_move);
    push_str(out, "\n");
    push_str(out, "in check: ");
    if s.in_check {
        push_str(out, "yes");
    } else {
        push_str(out, "no");
    }
    push_str(out, "\n");
    assert(out@ =~= old(out)@ + head_lines(*s));
}

fn push_material_line(out: &mut String, m: &MaterialBlock)
    ensures
        final(out)@ == old(out)@ + material_line(*m),
{
    push_str(out, "material: ");
    push_str(out, m.balance.as_str());
    push_str(out, "   (W: ");
    push_str(out, m.white_summary.as_str());
    push_str(out, " = ");
    push_decimal(out, m.white_points as u64);
    push_str(out, "  vs  B: ");
    push_str(out, m.black_summary.as_str());
    push_str(out, " = ");
    push_decimal(out, m.black_points as u64);
    push_str(out, ")\n");
    assert(out@ =~= old(out)@ + material_line(*m));
}

fn push_source_label(out: &mut String, s: &ScoreSourceJson)
    ensures
        final(out)@ == old(out)@ + source_label(*s),
{
    match s {
        ScoreSourceJson::Static => push_str(out, "static"),
        ScoreSourceJson::Search { depth } => {
            push_str(out, "search d=");
            push_decimal(out, *depth as u64);
        },
    }
    assert(out@ =~= old(out)@ + source_label(*s));
}

fn push_score_line(out: &mut String, sc: &ScoreBlock)
    ensures
        final(out)@ == old(out)@ + score_line(*sc),
{
    push_str(out, "score:    ");
    push_str(out, sc.pawns_white_pov.as_str());
    push_str(out, " pawns white-POV  (engine-cp: ");
    push_plus_signed(out, sc.engine_cp_stm as i64);
    push_str(out, " stm; ~");
    push_decimal(out, sc.win_pct_white as u64);
    push_str(out, "% win)  [");
    push_source_label(out, &sc.source);
    push_str(out, "]\n");
    assert(out@ =~= old(out)@ + score_line(*sc));
}

fn push_danger_line(out: &mut String, d: &DangerLine)
    ensures
        final(out)@ == old(out)@ + danger_line(*d),
{
    push_str(out, "            - opponent's ");
    push_str(out, d.pattern.as_str());
    push_str(out, " on your ");
    push_str(out, d.target.as_str());
    push_str(out, " (~");
    push_signed(out, d.min_gain as i64);
    push_str(out, " pts) — fires when ");
    push_str(out, d.trigger.as_str());
    push_str(out, "\n");
    assert(out@ =~= old(out)@ + danger_line(*d));
}

fn push_danger_block(out: &mut String, s: &PositionSummary)
    ensures
        final(out)@ == old(out)@ + danger_block(*s),
{
    let v = &s.danger;
    if v.len() == 0 {
        assert(out@ =~= old(out)@ + danger_block(*s));
        return;
    }
    push_str(out, "danger:   !! ");
    push_decimal(out, v.len() as u64);
    push_str(out, " standing threat(s) against ");
    push_str(out, s.to_move);
    push_str(
        out,
        " (side to move) — a move that ignores these will likely swing the eval against you:\n",
    );
    let ghost head = out@;
    let mut i: usize = 0;
    while i < v.len()
        invariant
            i <= v@.len(),
            out@ == head + danger_lines(v@, i as int),
        decreases v.len() - i,
    {
        push_danger_line(out, &v[i]);
        i = i + 1;
        assert(out@ =~= head + danger_lines(v@, i as int));
    }
    push_str(
        out,
        "          (static scan; confirm with `chess-tutor tactics --latent` or `chess-tutor explain`)\n",
    );
    assert(out@ =~= old(out)@ + danger_block(*s));
}

fn push_tail_lines(out: &mut String, s: &PositionSummary)
    ensures
        final(out)@ == old(out)@ + tail_lines(*s),
{
    match &s.opening {
        Some(op) => {
            push_str(out, "opening:  ");
            push_str(out, op.eco.as_str());
            push_str(out, "  ");
            push_str(out, op.name.as_str());
            push_str(out, "\n");
        },
        None => push_str(out, "opening:  (none matched)\n"),
    }
    let ghost a = out@;
    push_str(out, "legal:    ");
    push_decimal(out, s.legal_move_count as u64);
    push_str(out, " moves\n");
    match s.terminal {
        Some(t) => {
            push_str(out, "terminal: ");
            push_str(out, t);
            push_str(out, "\n");
        },
        None => {},
    }
    assert(out@ =~= old(out)@ + tail_lines(*s));
}

/// Multi-line rendering of the header, one labelled line per fact.
pub fn render_text(summary: &PositionSummary) -> (r: String)
    ensures
        r@ == summary_text(*summary),
{
    let mut out = String::new();
    push_head_lines(&mut out, summary);
    push_material_line(&mut out, &summary.material);
    push_score_line(&mut out, &summary.score);
    push_danger_block(&mut out, summary);
    push_tail_lines(&mut out, summary);
    assert(out@ =~= summary_text(*summary));
    out
}

} // verus!
