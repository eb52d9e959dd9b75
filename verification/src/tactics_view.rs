//! Text rendering of the tactics report: the best tactic for each side,
//! overloaded defenders, and the optional standing-threat, defusal and
//! check-followup blocks.

use vstd::prelude::*;

use crate::text::{
    decimal, joined, pad_left_aligned, pad_right_aligned, push_decimal, push_joined,
    push_left_aligned, push_right_aligned, push_signed, push_str, signed_decimal, texts,
};

verus! {

/// Full tactics report, one [`SideTactics`] per colour. The optional
/// blocks are present only when they were asked for.
#[derive(Debug, Clone)]
pub struct TacticsView {
    pub white: SideTactics,
    pub black: SideTactics,
    /// Standing threats per defender side.
    pub latent: Option<LatentView>,
    /// Two-step forcing lines per mover side.
    pub check_followups: Option<CheckFollowupsView>,
    /// The moves that defuse the side to move's standing threats.
    pub defusals: Option<DefusalsView>,
}

/// Search-backed list of the moves that neutralise the side to move's
/// standing threats, split into those that hold and those that do not.
#[derive(Debug, Clone)]
pub struct DefusalsView {
    /// Search depth the scores were produced at.
    pub depth: u32,
    /// Number of standing threats against the side to move.
    pub threat_count: usize,
    /// The engine's best move overall, in SAN.
    pub best_san: Option<String>,
    /// Best line's score, white-POV pawns.
    pub best_pawns_white_pov: Option<String>,
    /// The one threat all holding moves address, when there is one.
    pub common_thread: Option<String>,
    /// Moves that defuse a threat and keep the eval; best first.
    pub holders: Vec<DefusalMoveView>,
    /// Moves that address a threat but lose elsewhere; best first.
    pub non_holders: Vec<DefusalMoveView>,
}

#[derive(Debug, Clone)]
pub struct DefusalMoveView {
    pub san: String,
    pub uci: String,
    /// Resulting score, white-POV pawns.
    pub pawns_white_pov: String,
    /// Same score, raw engine-cp, side-to-move signed.
    pub engine_cp_stm: String,
    /// One phrase per threat this move neutralises.
    pub addresses: Vec<String>,
}

/// Per-mover-side block of multi-step forcing-line tactics.
#[derive(Debug, Clone)]
pub struct CheckFollowupsView {
    pub for_white: CheckFollowupsSide,
    pub for_black: CheckFollowupsSide,
}

#[derive(Debug, Clone)]
pub struct CheckFollowupsSide {
    pub mover_side: String,
    pub sequences: Vec<CheckFollowupView>,
}

#[derive(Debug, Clone)]
pub struct CheckFollowupView {
    pub check_san: String,
    pub check_uci: String,
    /// Every legal reply to the check, with the tactic that follows it.
    pub replies: Vec<ReplyFollowupView>,
}

#[derive(Debug, Clone)]
pub struct ReplyFollowupView {
    pub reply_san: String,
    pub reply_uci: String,
    /// The tactic the checking side has after this reply; `None` when the
    /// reply defuses it.
    pub followup: Option<TacticHitView>,
}

/// Standing-threat report, one [`LatentSide`] per defender colour.
#[derive(Debug, Clone)]
pub struct LatentView {
    pub against_white: LatentSide,
    pub against_black: LatentSide,
}

#[derive(Debug, Clone)]
pub struct LatentSide {
    /// The colour the listed threats are aimed at.
    pub defender_side: String,
    pub threats: Vec<LatentThreatView>,
}

/// A standing threat with its squares and pieces as printable labels.
#[derive(Debug, Clone)]
pub struct LatentThreatView {
    pub pattern: String,
    pub discoverer: String,
    pub discoverer_square: String,
    /// The blocker on the slider's ray, when the pattern has one.
    pub vehicle: Option<String>,
    pub vehicle_square: Option<String>,
    pub target: String,
    pub target_square: String,
    /// Classical-points gain estimate.
    pub min_gain: i32,
    pub confidence: String,
    /// What fires the threat, in words.
    pub trigger: String,
}

#[derive(Debug, Clone)]
pub struct SideTactics {
    pub side: String,
    /// Whether this side is the side to move.
    pub to_move: bool,
    /// Why the scan for this side was skipped, when it was.
    pub skipped: Option<String>,
    pub best_tactic: Option<TacticHitView>,
    pub overloaded: Vec<OverloadedView>,
}

/// A tactic with its squares and pieces as printable labels.
#[derive(Debug, Clone)]
pub struct TacticHitView {
    pub pattern: String,
    pub mate_pattern: Option<String>,
    pub sacrifice: bool,
    /// Destination square of the key move.
    pub primary_square: String,
    /// The piece on the key square before the move, when there is one.
    pub primary_square_pre_move_piece: Option<String>,
    /// The pieces the pattern bears on.
    pub targets: Vec<String>,
    /// Engine-cp material gain over the first plies of the line.
    pub material_gain: Option<i32>,
    pub confidence: String,
    pub pv_ply: usize,
    /// A defensive resource against this tactic, when one exists.
    pub escape: Option<EscapeView>,
}

/// The opponent's first reply that prevents the tactic's expected gain.
#[derive(Debug, Clone)]
pub struct EscapeView {
    /// The tactic's key move in SAN, which the refutation answers.
    pub key_move_san: Option<String>,
    pub refutation_san: String,
    pub refutation_uci: String,
    /// Why it works, in words.
    pub kind: String,
    /// The piece or square the tactic expected to win.
    pub expected_target: String,
}

#[derive(Debug, Clone)]
pub struct OverloadedView {
    pub piece: String,
    pub square: String,
    pub duties: Vec<String>,
}

// ---------------------------------------------------------------------
// The texts.

pub open spec fn sacrifice_text(hit: TacticHitView) -> Seq<char> {
    if hit.sacrifice {
        " (sacrifice)"@
    } else {
        Seq::empty()
    }
}

pub open spec fn mate_suffix(hit: TacticHitView) -> Seq<char> {
    match hit.mate_pattern {
        Some(mp) => " + "@ + mp@ + " mate"@,
        None => Seq::empty(),
    }
}

pub open spec fn targets_text(hit: TacticHitView) -> Seq<char> {
    if hit.targets@.len() == 0 {
        "(none)"@
    } else {
        joined(texts(hit.targets@), ", "@)
    }
}

pub open spec fn gain_text(hit: TacticHitView) -> Seq<char> {
    match hit.material_gain {
        Some(g) => signed_decimal(g as int) + " engine-cp"@,
        None => "n/a"@,
    }
}

pub open spec fn after_text(esc: EscapeView) -> Seq<char> {
    match esc.key_move_san {
        Some(km) => "after "@ + km@ + ", "@,
        None => Seq::empty(),
    }
}

pub open spec fn refuted_heading(hit: TacticHitView) -> Seq<char> {
    "  best tactic: NONE that win — the apparent "@ + hit.pattern@ + mate_suffix(hit)
        + sacrifice_text(hit) + " is REFUTED [has escape — likely not winnable]:\n"@
}

pub open spec fn pattern_line(hit: TacticHitView) -> Seq<char> {
    "    pattern:    "@ + hit.pattern@ + " on "@ + targets_text(hit) + "\n"@
}

pub open spec fn refuted_by_line(esc: EscapeView) -> Seq<char> {
    "    refuted by: "@ + after_text(esc) + "opponent replies "@ + esc.refutation_san@ + " ("@
        + esc.kind@ + " "@ + esc.expected_target@ + ")\n"@
}

pub open spec fn escape_note(hit: TacticHitView) -> Seq<char> {
    "    NOTE:       an escape exists — the "@ + hit.pattern@
        + " does not win; do not rely on it.\n"@
}

/// A tactic the opponent can escape: shown as the danger it is, tagged,
/// with the refutation and a closing note.
pub open spec fn refuted_hit_text(hit: TacticHitView, esc: EscapeView) -> Seq<char> {
    refuted_heading(hit) + pattern_line(hit) + refuted_by_line(esc) + escape_note(hit)
}

pub open spec fn clean_heading(hit: TacticHitView) -> Seq<char> {
    "  best tactic: "@ + hit.pattern@ + mate_suffix(hit) + sacrifice_text(hit) + "\n"@
}

pub open spec fn key_and_targets(hit: TacticHitView) -> Seq<char> {
    "    key sq:     "@ + hit.primary_square@ + "\n"@ + "    targets:    "@ + targets_text(hit)
        + "\n"@
}

pub open spec fn gain_and_confidence(hit: TacticHitView) -> Seq<char> {
    "    gain:       "@ + gain_text(hit) + "\n"@ + "    confidence: "@ + hit.confidence@ + "\n"@
}

/// A winnable tactic: its key square, targets, gain and confidence.
pub open spec fn clean_hit_text(hit: TacticHitView) -> Seq<char> {
    clean_heading(hit) + key_and_targets(hit) + gain_and_confidence(hit)
}

pub open spec fn hit_text(hit: TacticHitView) -> Seq<char> {
    match hit.escape {
        Some(esc) => refuted_hit_text(hit, esc),
        None => clean_hit_text(hit),
    }
}

pub open spec fn overloaded_line(o: OverloadedView) -> Seq<char> {
    "    "@ + o.piece@ + " — sole defender of "@ + joined(texts(o.duties@), ", "@) + "\n"@
}

pub open spec fn overloaded_lines(v: Seq<OverloadedView>, k: int) -> Seq<char>
    decreases k,
{
    if k <= 0 {
        Seq::empty()
    } else {
        overloaded_lines(v, k - 1) + overloaded_line(v[k - 1])
    }
}

pub open spec fn role_text(side: SideTactics) -> Seq<char> {
    if side.to_move {
        "to move"@
    } else {
        "one-ply ahead"@
    }
}

pub open spec fn best_text(side: SideTactics) -> Seq<char> {
    match side.skipped {
        Some(reason) => "  best tactic: skipped ("@ + reason@ + ")\n"@,
        None => match side.best_tactic {
            None => "  best tactic: (no high-confidence pattern detected)\n"@,
            Some(hit) => hit_text(hit),
        },
    }
}

pub open spec fn overloaded_text(side: SideTactics) -> Seq<char> {
    if side.overloaded@.len() == 0 {
        "  overloaded: (none)\n"@
    } else {
        "  overloaded ("@ + decimal(side.overloaded@.len()) + "):\n"@ + overloaded_lines(
            side.overloaded@,
            side.overloaded@.len() as int,
        )
    }
}

/// One side's block: heading with its role, best tactic, overloaded
/// defenders.
pub open spec fn side_text(side: SideTactics) -> Seq<char> {
    side.side@ + " ("@ + role_text(side) + "):\n"@ + best_text(side) + overloaded_text(side)
}

/// The blocker part of a standing threat: `/square(piece)` when the
/// pattern has a vehicle on a known square.
pub open spec fn vehicle_text(t: LatentThreatView) -> Seq<char> {
    match (t.vehicle, t.vehicle_square) {
        (Some(v), Some(vsq)) => "/"@ + vsq@ + "("@ + v@ + ")"@,
        _ => Seq::empty(),
    }
}

pub open spec fn latent_line(t: LatentThreatView) -> Seq<char> {
    "    "@ + t.pattern@ + " via "@ + t.discoverer_square@ + vehicle_text(t) + " -> "@
        + t.target_square@ + "  (gain "@ + signed_decimal(t.min_gain as int) + ")\n"@
        + "      trigger:   "@ + t.trigger@ + "\n"@
}

pub open spec fn latent_lines(v: Seq<LatentThreatView>, k: int) -> Seq<char>
    decreases k,
{
    if k <= 0 {
        Seq::empty()
    } else {
        latent_lines(v, k - 1) + latent_line(v[k - 1])
    }
}

pub open spec fn latent_side_text(s: LatentSide) -> Seq<char> {
    if s.threats@.len() == 0 {
        "  against "@ + s.defender_side@ + ": (none detected)\n"@
    } else {
        "  against "@ + s.defender_side@ + " ("@ + decimal(s.threats@.len()) + "):\n"@
            + latent_lines(s.threats@, s.threats@.len() as int)
    }
}

pub open spec fn latent_text(l: LatentView) -> Seq<char> {
    "standing (latent) threats:\n"@ + latent_side_text(l.against_white) + latent_side_text(
        l.against_black,
    )
}

pub open spec fn defusal_line(m: DefusalMoveView) -> Seq<char> {
    "    "@ + pad_left_aligned(m.san@, 7) + " "@ + pad_right_aligned(m.pawns_white_pov@, 7)
        + " pawns (wp)  [engine-cp "@ + m.engine_cp_stm@ + " stm]  — "@ + joined(
        texts(m.addresses@),
        "; "@,
    ) + "\n"@
}

pub open spec fn defusal_lines(v: Seq<DefusalMoveView>, k: int) -> Seq<char>
    decreases k,
{
    if k <= 0 {
        Seq::empty()
    } else {
        defusal_lines(v, k - 1) + defusal_line(v[k - 1])
    }
}

/// The cautionary list shows at most this many non-holding moves.
pub const MAX_NON_HOLDERS: usize = 4;

pub open spec fn thread_text(d: DefusalsView) -> Seq<char> {
    match d.common_thread {
        Some(t) => "  "@ + t@ + "\n"@,
        None => Seq::empty(),
    }
}

pub open spec fn holders_text(d: DefusalsView) -> Seq<char> {
    if d.holders@.len() == 0 {
        "  !! NO move both defuses a threat and holds — the position is already lost or\n"@
            + "     the threat cannot be parried without concession. See the cautionary list below.\n"@
    } else {
        "  moves that DEFUSE and HOLD (play one of these):\n"@ + defusal_lines(
            d.holders@,
            d.holders@.len() as int,
        )
    }
}

pub open spec fn non_holders_text(d: DefusalsView) -> Seq<char> {
    let n = d.non_holders@.len();
    if n == 0 {
        Seq::empty()
    } else {
        "  moves that address a threat but LOSE elsewhere (do NOT be fooled — these don't hold):\n"@
            + defusal_lines(
            d.non_holders@,
            if n < MAX_NON_HOLDERS {
                n as int
            } else {
                MAX_NON_HOLDERS as int
            },
        ) + if n > MAX_NON_HOLDERS {
            "    … and "@ + decimal((n - MAX_NON_HOLDERS) as nat) + " more non-holding move(s)\n"@
        } else {
            Seq::empty()
        }
    }
}

pub open spec fn best_move_text(d: DefusalsView) -> Seq<char> {
    if d.best_san is Some && d.best_pawns_white_pov is Some {
        "  best move overall: "@ + d.best_san.unwrap()@ + "  ("@ + d.best_pawns_white_pov.unwrap()@
            + " pawns white-POV)\n"@
    } else {
        Seq::empty()
    }
}

pub open spec fn defusals_head(d: DefusalsView) -> Seq<char> {
    "defusing the danger (search-backed, depth "@ + decimal(d.depth as nat) + "):\n"@
        + "  you face "@ + decimal(d.threat_count as nat)
        + " standing threat(s) against the side to move. You MUST play a move\n"@
        + "  that neutralises the threat AND holds the eval — anything else hands it over.\n"@
}

pub open spec fn defusals_text(d: DefusalsView) -> Seq<char> {
    defusals_head(d) + thread_text(d) + holders_text(d) + non_holders_text(d) + best_move_text(d)
}

pub open spec fn reply_line(r: ReplyFollowupView) -> Seq<char> {
    match r.followup {
        Some(hit) => "      "@ + r.reply_san@ + " ("@ + r.reply_uci@ + ") -> "@ + hit.pattern@
            + " on "@ + hit.primary_square@ + " ("@ + hit.confidence@ + match hit.material_gain {
            Some(g) => ", gain "@ + signed_decimal(g as int) + " engine-cp"@,
            None => Seq::empty(),
        } + ")\n"@,
        None => "      "@ + r.reply_san@ + " ("@ + r.reply_uci@
            + ") -> defuses (no followup tactic)\n"@,
    }
}

pub open spec fn reply_lines(v: Seq<ReplyFollowupView>, k: int) -> Seq<char>
    decreases k,
{
    if k <= 0 {
        Seq::empty()
    } else {
        reply_lines(v, k - 1) + reply_line(v[k - 1])
    }
}

pub open spec fn sequence_text(s: CheckFollowupView) -> Seq<char> {
    "    "@ + s.check_san@ + " ("@ + s.check_uci@ + "):\n"@ + reply_lines(
        s.replies@,
        s.replies@.len() as int,
    )
}

pub open spec fn sequence_lines(v: Seq<CheckFollowupView>, k: int) -> Seq<char>
    decreases k,
{
    if k <= 0 {
        Seq::empty()
    } else {
        sequence_lines(v, k - 1) + sequence_text(v[k - 1])
    }
}

pub open spec fn followups_side_text(s: CheckFollowupsSide) -> Seq<char> {
    if s.sequences@.len() == 0 {
        "  for "@ + s.mover_side@ + ": (no two-step forcing sequences detected)\n"@
    } else {
        "  for "@ + s.mover_side@ + " ("@ + decimal(s.sequences@.len()) + "):\n"@
            + sequence_lines(s.sequences@, s.sequences@.len() as int)
    }
}

pub open spec fn followups_text(cf: CheckFollowupsView) -> Seq<char> {
    "check-followups (one ply past the check):\n"@ + followups_side_text(cf.for_white)
        + followups_side_text(cf.for_black)
}

/// The whole report: each side followed by a blank line, then the
/// standing threats, the defusals and the check-followups where present.
pub open spec fn view_text(v: TacticsView) -> Seq<char> {
    side_text(v.white) + "\n"@ + side_text(v.black) + "\n"@ + match v.latent {
        Some(l) => latent_text(l),
        None => Seq::empty(),
    } + match v.defusals {
        Some(d) => defusals_text(d),
        None => Seq::empty(),
    } + match v.check_followups {
        Some(cf) => followups_text(cf),
        None => Seq::empty(),
    }
}

// ---------------------------------------------------------------------
// The renderers.

fn push_mate_suffix(out: &mut String, hit: &TacticHitView)
    ensures
        final(out)@ == old(out)@ + mate_suffix(*hit),
{
    match &hit.mate_pattern {
        Some(mp) => {
            push_str(out, " + ");
            push_str(out, mp.as_str());
            push_str(out, " mate");
        },
        None => {},
    }
    assert(out@ =~= old(out)@ + mate_suffix(*hit));
}

fn push_targets(out: &mut String, hit: &TacticHitView)
    ensures
        final(out)@ == old(out)@ + targets_text(*hit),
{
    if hit.targets.len() == 0 {
        push_str(out, "(none)");
    } else {
        push_joined(out, &hit.targets, ", ");
    }
}

fn push_heading_tail(out: &mut String, hit: &TacticHitView)
    ensures
        final(out)@ == old(out)@ + mate_suffix(*hit) + sacrifice_text(*hit),
{
    push_mate_suffix(out, hit);
    if hit.sacrifice {
        push_str(out, " (sacrifice)");
    }
    assert(out@ =~= old(out)@ + mate_suffix(*hit) + sacrifice_text(*hit));
}

fn push_refuted_heading(out: &mut String, hit: &TacticHitView)
    ensures
        final(out)@ == old(out)@ + refuted_heading(*hit),
{
    push_str(out, "  best tactic: NONE that win — the apparent ");
    push_str(out, hit.pattern.as_str());
    push_heading_tail(out, hit);
    push_str(out, " is REFUTED [has escape — likely not winnable]:\n");
    assert(out@ =~= old(out)@ + refuted_heading(*hit));
}

fn push_pattern_line(out: &mut String, hit: &TacticHitView)
    ensures
        final(out)@ == old(out)@ + pattern_line(*hit),
{
    push_str(out, "    pattern:    ");
    push_str(out, hit.pattern.as_str());
    push_str(out, " on ");
    push_targets(out, hit);
    push_str(out, "\n");
    assert(out@ =~= old(out)@ + pattern_line(*hit));
}

fn push_refuted_by(out: &mut String, esc: &EscapeView)
    ensures
        final(out)@ == old(out)@ + refuted_by_line(*esc),
{
    push_str(out, "    refuted by: ");
    match &esc.key_move_san {
        Some(km) => {
            push_str(out, "after ");
            push_str(out, km.as_str());
            push_str(out, ", ");
        },
        None => {},
    }
    assert(out@ =~= old(out)@ + "    refuted by: "@ + after_text(*esc));
    push_str(out, "opponent replies ");
    push_str(out, esc.refutation_san.as_str());
    push_str(out, " (");
    push_str(out, esc.kind.as_str());
    push_str(out, " ");
    push_str(out, esc.expected_target.as_str());
    push_str(out, ")\n");
    assert(out@ =~= old(out)@ + refuted_by_line(*esc));
}

fn push_refuted_hit(out: &mut String, hit: &TacticHitView, esc: &EscapeView)
    ensures
        final(out)@ == old(out)@ + refuted_hit_text(*hit, *esc),
{
    push_refuted_heading(out, hit);
    push_pattern_line(out, hit);
    push_refuted_by(out, esc);
    push_str(out, "    NOTE:       an escape exists — the ");
    push_str(out, hit.pattern.as_str());
    push_str(out, " does not win; do not rely on it.\n");
    assert(out@ =~= old(out)@ + refuted_hit_text(*hit, *esc));
}

fn push_clean_heading(out: &mut String, hit: &TacticHitView)
    ensures
        final(out)@ == old(out)@ + clean_heading(*hit),
{
    push_str(out, "  best tactic: ");
    push_str(out, hit.pattern.as_str());
    push_heading_tail(out, hit);
    push_str(out, "\n");
    assert(out@ =~= old(out)@ + clean_heading(*hit));
}

fn push_key_and_targets(out: &mut String, hit: &TacticHitView)
    ensures
        final(out)@ == old(out)@ + key_and_targets(*hit),
{
    push_str(out, "    key sq:     ");
    push_str(out, hit.primary_square.as_str());
    push_str(out, "\n");
    push_str(out, "    targets:    ");
    push_targets(out, hit);
    push_str(out, "\n");
    assert(out@ =~= old(out)@ + key_and_targets(*hit));
}

fn push_gain_and_confidence(out: &mut String, hit: &TacticHitView)
    ensures
        final(out)@ == old(out)@ + gain_and_confidence(*hit),
{
    push_str(out, "    gain:       ");
    match hit.material_gain {
        Some(g) => {
            push_signed(out, g as i64);
            push_str(out, " engine-cp");
        },
        None => {
            push_str(out, "n/a");
        },
    }
    assert(out@ =~= old(out)@ + "    gain:       "@ + gain_text(*hit));
    push_str(out, "\n");
    push_str(out, "    confidence: ");
    push_str(out, hit.confidence.as_str());
    push_str(out, "\n");
    assert(out@ =~= old(out)@ + gain_and_confidence(*hit));
}

fn push_clean_hit(out: &mut String, hit: &TacticHitView)
    ensures
        final(out)@ == old(out)@ + clean_hit_text(*hit),
{
    push_clean_heading(out, hit);
    push_key_and_targets(out, hit);
    push_gain_and_confidence(out, hit);
    assert(out@ =~= old(out)@ + clean_hit_text(*hit));
}

/// Render one tactic: a winnable one with its key square, targets, gain
/// and confidence; one with an escape as the refuted danger it is.
fn render_hit(out: &mut String, hit: &TacticHitView)
    ensures
        final(out)@ == old(out)@ + hit_text(*hit),
{
    match &hit.escape {
        Some(esc) => push_refuted_hit(out, hit, esc),
        None => push_clean_hit(out, hit),
    }
}

fn push_overloaded(out: &mut String, side: &SideTactics)
    ensures
        final(out)@ == old(out)@ + overloaded_text(*side),
{
    let v = &side.overloaded;
    if v.len() == 0 {
        push_str(out, "  overloaded: (none)\n");
        return;
    }
    push_str(out, "  overloaded (");
    push_decimal(out, v.len() as u64);
    push_str(out, "):\n");
    let ghost head = out@;
    let mut i: usize = 0;
    while i < v.len()
        invariant
            i <= v@.len(),
            out@ == head + overloaded_lines(v@, i as int),
        decreases v.len() - i,
    {
        let o = &v[i];
        push_str(out, "    ");
        push_str(out, o.piece.as_str());
        push_str(out, " — sole defender of ");
        push_joined(out, &o.duties, ", ");
        push_str(out, "\n");
        i = i + 1;
        assert(out@ =~= head + overloaded_lines(v@, i as int));
    }
    assert(out@ =~= old(out)@ + overloaded_text(*side));
}

/// Render one side: its heading and role, its best tactic (or why there
/// is none), and its overloaded defenders.
fn render_side(out: &mut String, side: &SideTactics)
    ensures
        final(out)@ == old(out)@ + side_text(*side),
{
    push_str(out, side.side.as_str());
    push_str(out, " (");
    if side.to_move {
        push_str(out, "to move");
    } else {
        push_str(out, "one-ply ahead");
    }
    push_str(out, "):\n");
    let ghost a = out@;
    match &side.skipped {
        Some(reason) => {
            push_str(out, "  best tactic: skipped (");
            push_str(out, reason.as_str());
            push_str(out, ")\n");
        },
        None => match &side.best_tactic {
            None => push_str(out, "  best tactic: (no high-confidence pattern detected)\n"),
            Some(hit) => render_hit(out, hit),
        },
    }
    assert(out@ =~= a + best_text(*side));
    let ghost b = out@;
    push_overloaded(out, side);
    assert(out@ =~= old(out)@ + side_text(*side));
}

fn push_latent_line(out: &mut String, t: &LatentThreatView)
    ensures
        final(out)@ == old(out)@ + latent_line(*t),
{
    push_str(out, "    ");
    push_str(out, t.pattern.as_str());
    push_str(out, " via ");
    push_str(out, t.discoverer_square.as_str());
    match (&t.vehicle, &t.vehicle_square) {
        (Some(veh), Some(vsq)) => {
            push_str(out, "/");
            push_str(out, vsq.as_str());
            push_str(out, "(");
            push_str(out, veh.as_str());
            push_str(out, ")");
        },
        _ => {},
    }
    assert(out@ =~= old(out)@ + "    "@ + t.pattern@ + " via "@ + t.discoverer_square@ + vehicle_text(*t));
    push_str(out, " -> ");
    push_str(out, t.target_square.as_str());
    push_str(out, "  (gain ");
    push_signed(out, t.min_gain as i64);
    push_str(out, ")\n");
    push_str(out, "      trigger:   ");
    push_str(out, t.trigger.as_str());
    push_str(out, "\n");
    assert(out@ =~= old(out)@ + latent_line(*t));
}

fn render_latent_side(out: &mut String, s: &LatentSide)
    ensures
        final(out)@ == old(out)@ + latent_side_text(*s),
{
    if s.threats.len() == 0 {
        push_str(out, "  against ");
        push_str(out, s.defender_side.as_str());
        push_str(out, ": (none detected)\n");
        assert(out@ =~= old(out)@ + latent_side_text(*s));
        return;
    }
    push_str(out, "  against ");
    push_str(out, s.defender_side.as_str());
    push_str(out, " (");
    push_decimal(out, s.threats.len() as u64);
    push_str(out, "):\n");
    let ghost head = out@;
    let mut i: usize = 0;
    while i < s.threats.len()
        invariant
            i <= s.threats@.len(),
            out@ == head + latent_lines(s.threats@, i as int),
        decreases s.threats.len() - i,
    {
        push_latent_line(out, &s.threats[i]);
        i = i + 1;
        assert(out@ =~= head + latent_lines(s.threats@, i as int));
    }
    assert(out@ =~= old(out)@ + latent_side_text(*s));
}

/// Render the standing-threat block, one part per defender colour.
fn render_latent(out: &mut String, latent: &LatentView)
    ensures
        final(out)@ == old(out)@ + latent_text(*latent),
{
    push_str(out, "standing (latent) threats:\n");
    render_latent_side(out, &latent.against_white);
    render_latent_side(out, &latent.against_black);
    assert(out@ =~= old(out)@ + latent_text(*latent));
}

/// Render one defusing move: SAN padded to 7, white-POV pawns right
/// aligned in 7, the engine score and the threats it addresses.
fn render_defusal_move(out: &mut String, m: &DefusalMoveView)
    ensures
        final(out)@ == old(out)@ + defusal_line(*m),
{
    push_str(out, "    ");
    push_left_aligned(out, m.san.as_str(), 7);
    push_str(out, " ");
    push_right_aligned(out, m.pawns_white_pov.as_str(), 7);
    push_str(out, " pawns (wp)  [engine-cp ");
    push_str(out, m.engine_cp_stm.as_str());
    push_str(out, " stm]  — ");
    push_joined(out, &m.addresses, "; ");
    push_str(out, "\n");
    assert(out@ =~= old(out)@ + defusal_line(*m));
}

fn push_defusal_moves(out: &mut String, v: &Vec<DefusalMoveView>, count: usize)
    requires
        count <= v@.len(),
    ensures
        final(out)@ == old(out)@ + defusal_lines(v@, count as int),
{
    let mut i: usize = 0;
    while i < count
        invariant
            i <= count,
            count <= v@.len(),
            out@ == old(out)@ + defusal_lines(v@, i as int),
        decreases count - i,
    {
        render_defusal_move(out, &v[i]);
        i = i + 1;
        assert(out@ =~= old(out)@ + defusal_lines(v@, i as int));
    }
}

fn push_non_holders(out: &mut String, d: &DefusalsView)
    ensures
        final(out)@ == old(out)@ + non_holders_text(*d),
{
    let n = d.non_holders.len();
    if n == 0 {
        assert(out@ =~= old(out)@ + non_holders_text(*d));
        return;
    }
    push_str(
        out,
        "  moves that address a threat but LOSE elsewhere (do NOT be fooled — these don't hold):\n",
    );
    let shown = if n < MAX_NON_HOLDERS {
        n
    } else {
        MAX_NON_HOLDERS
    };
    push_defusal_moves(out, &d.non_holders, shown);
    let ghost a = out@;
    if n > MAX_NON_HOLDERS {
        push_str(out, "    … and ");
        push_decimal(out, (n - MAX_NON_HOLDERS) as u64);
        push_str(out, " more non-holding move(s)\n");
    }
    assert(out@ =~= old(out)@ + non_holders_text(*d));
}

fn push_defusals_head(out: &mut String, d: &DefusalsView)
    ensures
        final(out)@ == old(out)@ + defusals_head(*d),
{
    push_str(out, "defusing the danger (search-backed, depth ");
    push_decimal(out, d.depth as u64);
    push_str(out, "):\n");
    push_str(out, "  you face ");
    push_decimal(out, d.threat_count as u64);
    push_str(out, " standing threat(s) against the side to move. You MUST play a move\n");
    push_str(out, "  that neutralises the threat AND holds the eval — anything else hands it over.\n");
    assert(out@ =~= old(out)@ + defusals_head(*d));
}

fn push_thread(out: &mut String, d: &DefusalsView)
    ensures
        final(out)@ == old(out)@ + thread_text(*d),
{
    match &d.common_thread {
        Some(t) => {
            push_str(out, "  ");
            push_str(out, t.as_str());
            push_str(out, "\n");
        },
        None => {},
    }
    assert(out@ =~= old(out)@ + thread_text(*d));
}

fn push_holders(out: &mut String, d: &DefusalsView)
    ensures
        final(out)@ == old(out)@ + holders_text(*d),
{
    if d.holders.len() == 0 {
        push_str(
            out,
            "  !! NO move both defuses a threat and holds — the position is already lost or\n",
        );
        push_str(
            out,
            "     the threat cannot be parried without concession. See the cautionary list below.\n",
        );
    } else {
        push_str(out, "  moves that DEFUSE and HOLD (play one of these):\n");
        push_defusal_moves(out, &d.holders, d.holders.len());
    }
    assert(out@ =~= old(out)@ + holders_text(*d));
}

fn push_best_move(out: &mut String, d: &DefusalsView)
    ensures
        final(out)@ == old(out)@ + best_move_text(*d),
{
    match (&d.best_san, &d.best_pawns_white_pov) {
        (Some(best), Some(pawns)) => {
            push_str(out, "  best move overall: ");
            push_str(out, best.as_str());
            push_str(out, "  (");
            push_str(out, pawns.as_str());
            push_str(out, " pawns white-POV)\n");
        },
        _ => {},
    }
    assert(out@ =~= old(out)@ + best_move_text(*d));
}

/// Render the defusal block: the imperative heading, the common thread,
/// the holding moves, at most four non-holding ones, and the best move.
fn render_defusals(out: &mut String, d: &DefusalsView)
    ensures
        final(out)@ == old(out)@ + defusals_text(*d),
{
    push_defusals_head(out, d);
    push_thread(out, d);
    push_holders(out, d);
    push_non_holders(out, d);
    push_best_move(out, d);
    assert(out@ =~= old(out)@ + defusals_text(*d));
}

fn push_reply(out: &mut String, r: &ReplyFollowupView)
    ensures
        final(out)@ == old(out)@ + reply_line(*r),
{
    push_str(out, "      ");
    push_str(out, r.reply_san.as_str());
    push_str(out, " (");
    push_str(out, r.reply_uci.as_str());
    match &r.followup {
        Some(hit) => {
            push_str(out, ") -> ");
            push_str(out, hit.pattern.as_str());
            push_str(out, " on ");
            push_str(out, hit.primary_square.as_str());
            push_str(out, " (");
            push_str(out, hit.confidence.as_str());
            match hit.material_gain {
                Some(g) => {
                    push_str(out, ", gain ");
                    push_signed(out, g as i64);
                    push_str(out, " engine-cp");
                },
                None => {},
            }
            push_str(out, ")\n");
        },
        None => {
            push_str(out, ") -> defuses (no followup tactic)\n");
        },
    }
    assert(out@ =~= old(out)@ + reply_line(*r));
}

fn push_sequence(out: &mut String, s: &CheckFollowupView)
    ensures
        final(out)@ == old(out)@ + sequence_text(*s),
{
    push_str(out, "    ");
    push_str(out, s.check_san.as_str());
    push_str(out, " (");
    push_str(out, s.check_uci.as_str());
    push_str(out, "):\n");
    let ghost head = out@;
    let mut i: usize = 0;
    while i < s.replies.len()
        invariant
            i <= s.replies@.len(),
            out@ == head + reply_lines(s.replies@, i as int),
        decreases s.replies.len() - i,
    {
        push_reply(out, &s.replies[i]);
        i = i + 1;
        assert(out@ =~= head + reply_lines(s.replies@, i as int));
    }
    assert(out@ =~= old(out)@ + sequence_text(*s));
}

fn render_followups_side(out: &mut String, s: &CheckFollowupsSide)
    ensures
        final(out)@ == old(out)@ + followups_side_text(*s),
{
    if s.sequences.len() == 0 {
        push_str(out, "  for ");
        push_str(out, s.mover_side.as_str());
        push_str(out, ": (no two-step forcing sequences detected)\n");
        assert(out@ =~= old(out)@ + followups_side_text(*s));
        return;
    }
    push_str(out, "  for ");
    push_str(out, s.mover_side.as_str());
    push_str(out, " (");
    push_decimal(out, s.sequences.len() as u64);
    push_str(out, "):\n");
    let ghost head = out@;
    let mut i: usize = 0;
    while i < s.sequences.len()
        invariant
            i <= s.sequences@.len(),
            out@ == head + sequence_lines(s.sequences@, i as int),
        decreases s.sequences.len() - i,
    {
        push_sequence(out, &s.sequences[i]);
        i = i + 1;
        assert(out@ =~= head + sequence_lines(s.sequences@, i as int));
    }
    assert(out@ =~= old(out)@ + followups_side_text(*s));
}

/// Render the check-followup block: for each mover side, each checking
/// move and, under it, each reply with the tactic it leaves (or that it
/// defuses).
fn render_check_followups(out: &mut String, cf: &CheckFollowupsView)
    ensures
        final(out)@ == old(out)@ + followups_text(*cf),
{
    push_str(out, "check-followups (one ply past the check):\n");
    render_followups_side(out, &cf.for_white);
    render_followups_side(out, &cf.for_black);
    assert(out@ =~= old(out)@ + followups_text(*cf));
}

/// Multi-line human-readable rendering: each side with its role (to
/// move, or one ply ahead), then the optional blocks.
pub fn render_text(view: &TacticsView) -> (r: String)
    ensures
        r@ == view_text(*view),
{
    let mut out = String::new();
    render_side(&mut out, &view.white);
    push_str(&mut out, "\n");
    render_side(&mut out, &view.black);
    push_str(&mut out, "\n");
    let ghost a = out@;
    match &view.latent {
        Some(latent) => render_latent(&mut out, latent),
        None => {},
    }
    let ghost b = out@;
    match &view.defusals {
        Some(d) => render_defusals(&mut out, d),
        None => {},
    }
    let ghost c = out@;
    match &view.check_followups {
        Some(cf) => render_check_followups(&mut out, cf),
        None => {},
    }
    proof {
        assert(b =~= a + match view.latent {
            Some(l) => latent_text(l),
            None => Seq::empty(),
        });
        assert(c =~= b + match view.defusals {
            Some(d) => defusals_text(d),
            None => Seq::empty(),
        });
        assert(out@ =~= view_text(*view));
    }
    out
}

} // verus!
