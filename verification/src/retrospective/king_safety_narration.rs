//! King-safety narration: per side, the king got more exposed (more
//! attackers, weaker shelter) or safer (fewer attackers, stronger
//! shelter); exposure is told in preference to safety. Shelter is not
//! narrated deep in the endgame.

use vstd::prelude::*;

use crate::retrospective::{
    first_of, fits_i32, format_shelter_pawns, opt_line, pawns_text, push_indented,
};
use crate::text::{joined, push_joined, push_signed, push_str, signed_decimal, texts};

verus! {

/// One king's safety terms.
#[derive(Debug, Clone, Copy)]
pub struct KingSafetySnapshot {
    /// The king's square (0..64, a1 = 0).
    pub king_sq: u8,
    pub attackers_count: i32,
    pub attacks_count: i32,
    pub shelter_mg: i32,
    pub shelter_eg: i32,
}

/// Both kings before and after the move, and the game phase (128 is a
/// pure middlegame, 0 a pure endgame).
#[derive(Debug, Clone, Copy)]
pub struct KingSafetyOutcome {
    pub ours_pre: KingSafetySnapshot,
    pub ours_post: KingSafetySnapshot,
    pub theirs_pre: KingSafetySnapshot,
    pub theirs_post: KingSafetySnapshot,
    pub phase: i32,
}

/// Shelter change worth narrating.
pub const KING_SHELTER_DELTA_THRESHOLD_CP: i32 = 25;

/// Below this phase shelter is not narrated.
pub const KING_SHELTER_ENDGAME_PHASE_CUTOFF: i32 = 32;

/// Changes of a side's attacker count and shelter across the move.
pub open spec fn attackers_delta(pre: KingSafetySnapshot, post: KingSafetySnapshot) -> int {
    post.attackers_count - pre.attackers_count
}

pub open spec fn shelter_delta(pre: KingSafetySnapshot, post: KingSafetySnapshot) -> int {
    post.shelter_mg - pre.shelter_mg
}

pub open spec fn spec_suppressed(o: KingSafetyOutcome) -> bool {
    o.phase < KING_SHELTER_ENDGAME_PHASE_CUTOFF
}

/// Deep in the endgame pawn cover is no longer what keeps a king safe,
/// so shelter changes are not narrated.
pub fn shelter_narration_suppressed(o: &KingSafetyOutcome) -> (r: bool)
    ensures
        r == spec_suppressed(*o),
{
    o.phase < KING_SHELTER_ENDGAME_PHASE_CUTOFF
}

/// The flank of a king's square: queenside on files a-c, kingside on
/// files f-h, none on d and e.
pub open spec fn spec_flank(sq: int) -> Option<Seq<char>> {
    if sq % 8 <= 2 {
        Some("queenside"@)
    } else if sq % 8 >= 5 {
        Some("kingside"@)
    } else {
        None
    }
}

pub fn flank_side_label(king_sq: u8) -> (r: Option<&'static str>)
    ensures
        match r {
            Some(l) => spec_flank(king_sq as int) == Some(l@),
            None => spec_flank(king_sq as int) is None,
        },
{
    let f = king_sq % 8;
    if f <= 2 {
        Some("queenside")
    } else if f >= 5 {
        Some("kingside")
    } else {
        None
    }
}

pub open spec fn exposure_clause(post: int, pre: int, sq: int) -> Seq<char> {
    signed_decimal(post) + " attackers on the "@ + match spec_flank(sq) {
        Some(l) => l,
        None => "king ring"@,
    } + " (up from "@ + signed_decimal(pre) + ")"@
}

pub open spec fn safer_clause(post: int, pre: int, sq: int) -> Seq<char> {
    (match spec_flank(sq) {
        Some(l) => l + " attackers down to "@,
        None => "attackers down to "@,
    }) + signed_decimal(post) + " (from "@ + signed_decimal(pre) + ")"@
}

pub fn attackers_clause_exposure(post_count: i32, pre_count: i32, king_sq: u8) -> (r: String)
    ensures
        r@ == exposure_clause(post_count as int, pre_count as int, king_sq as int),
{
    let mut out = String::new();
    push_signed(&mut out, post_count as i64);
    push_str(&mut out, " attackers on the ");
    match flank_side_label(king_sq) {
        Some(l) => push_str(&mut out, l),
        None => push_str(&mut out, "king ring"),
    }
    push_str(&mut out, " (up from ");
    push_signed(&mut out, pre_count as i64);
    push_str(&mut out, ")");
    assert(out@ =~= exposure_clause(post_count as int, pre_count as int, king_sq as int));
    out
}

pub fn attackers_clause_safer(post_count: i32, pre_count: i32, king_sq: u8) -> (r: String)
    ensures
        r@ == safer_clause(post_count as int, pre_count as int, king_sq as int),
{
    let mut out = String::new();
    match flank_side_label(king_sq) {
        Some(l) => {
            push_str(&mut out, l);
            push_str(&mut out, " attackers down to ");
        },
        None => push_str(&mut out, "attackers down to "),
    }
    push_signed(&mut out, post_count as i64);
    push_str(&mut out, " (from ");
    push_signed(&mut out, pre_count as i64);
    push_str(&mut out, ")");
    assert(out@ =~= safer_clause(post_count as int, pre_count as int, king_sq as int));
    out
}

/// The clauses of a side's line: the attackers clause when it fires,
/// then the shelter clause (with its verb) when it fires.
pub open spec fn clauses(
    pre: KingSafetySnapshot,
    post: KingSafetySnapshot,
    attackers_fire: bool,
    attackers_clause: Seq<char>,
    shelter_fire: bool,
    shelter_verb: Seq<char>,
) -> Seq<Seq<char>> {
    (if attackers_fire {
        seq![attackers_clause]
    } else {
        Seq::empty()
    }) + if shelter_fire {
        seq![
            shelter_verb + " ("@ + pawns_text(pre.shelter_mg as int) + " → "@ + pawns_text(
                post.shelter_mg as int,
            ) + ")"@,
        ]
    } else {
        Seq::empty()
    }
}

/// A side's exposure line: `head`, then its clauses, when one fires.
pub open spec fn exposure_line(
    o: KingSafetyOutcome,
    pre: KingSafetySnapshot,
    post: KingSafetySnapshot,
    head: Seq<char>,
    verb: Seq<char>,
) -> Option<Seq<char>> {
    let up = attackers_delta(pre, post) > 0;
    let down = !spec_suppressed(o) && shelter_delta(pre, post) <= -KING_SHELTER_DELTA_THRESHOLD_CP;
    if !up && !down {
        None
    } else {
        Some(
            head + joined(
                clauses(
                    pre,
                    post,
                    up,
                    exposure_clause(
                        post.attackers_count as int,
                        pre.attackers_count as int,
                        post.king_sq as int,
                    ),
                    down,
                    verb,
                ),
                ", "@,
            ) + "."@,
        )
    }
}

/// A side's safer line: `head`, then its clauses, when one fires.
pub open spec fn safer_line(
    o: KingSafetyOutcome,
    pre: KingSafetySnapshot,
    post: KingSafetySnapshot,
    head: Seq<char>,
) -> Option<Seq<char>> {
    let down = attackers_delta(pre, post) < 0;
    let up = !spec_suppressed(o) && shelter_delta(pre, post) >= KING_SHELTER_DELTA_THRESHOLD_CP;
    if !down && !up {
        None
    } else {
        Some(
            head + joined(
                clauses(
                    pre,
                    post,
                    down,
                    safer_clause(
                        post.attackers_count as int,
                        pre.attackers_count as int,
                        post.king_sq as int,
                    ),
                    up,
                    "shelter strengthened"@,
                ),
                ", "@,
            ) + "."@,
        )
    }
}

pub open spec fn spec_our_exposure(o: KingSafetyOutcome) -> Option<Seq<char>> {
    exposure_line(o, o.ours_pre, o.ours_post, "Your king is more exposed: "@, "shelter weakened"@)
}

pub open spec fn spec_their_exposure(o: KingSafetyOutcome) -> Option<Seq<char>> {
    exposure_line(
        o,
        o.theirs_pre,
        o.theirs_post,
        "You expose the opponent's king: "@,
        "shelter cracked"@,
    )
}

pub open spec fn spec_our_safer(o: KingSafetyOutcome) -> Option<Seq<char>> {
    safer_line(o, o.ours_pre, o.ours_post, "Your king is safer: "@)
}

pub open spec fn spec_their_safer(o: KingSafetyOutcome) -> Option<Seq<char>> {
    safer_line(o, o.theirs_pre, o.theirs_post, "The opponent's king is safer: "@)
}

/// The attacker and shelter changes of both sides fit in an `i32`.
pub open spec fn outcome_fits(o: KingSafetyOutcome) -> bool {
    &&& fits_i32(attackers_delta(o.ours_pre, o.ours_post))
    &&& fits_i32(shelter_delta(o.ours_pre, o.ours_post))
    &&& fits_i32(attackers_delta(o.theirs_pre, o.theirs_post))
    &&& fits_i32(shelter_delta(o.theirs_pre, o.theirs_post))
}

impl KingSafetyOutcome {
    pub fn ours_attackers_delta(&self) -> (r: i32)
        requires
            fits_i32(attackers_delta(self.ours_pre, self.ours_post)),
        ensures
            r == attackers_delta(self.ours_pre, self.ours_post),
    {
        self.ours_post.attackers_count - self.ours_pre.attackers_count
    }

    pub fn theirs_attackers_delta(&self) -> (r: i32)
        requires
            fits_i32(attackers_delta(self.theirs_pre, self.theirs_post)),
        ensures
            r == attackers_delta(self.theirs_pre, self.theirs_post),
    {
        self.theirs_post.attackers_count - self.theirs_pre.attackers_count
    }

    pub fn ours_shelter_mg_delta(&self) -> (r: i32)
        requires
            fits_i32(shelter_delta(self.ours_pre, self.ours_post)),
        ensures
            r == shelter_delta(self.ours_pre, self.ours_post),
    {
        self.ours_post.shelter_mg - self.ours_pre.shelter_mg
    }

    pub fn theirs_shelter_mg_delta(&self) -> (r: i32)
        requires
            fits_i32(shelter_delta(self.theirs_pre, self.theirs_post)),
        ensures
            r == shelter_delta(self.theirs_pre, self.theirs_post),
    {
        self.theirs_post.shelter_mg - self.theirs_pre.shelter_mg
    }
}

fn shelter_clause(verb: &str, pre: &KingSafetySnapshot, post: &KingSafetySnapshot) -> (r: String)
    ensures
        r@ == verb@ + " ("@ + pawns_text(pre.shelter_mg as int) + " → "@ + pawns_text(
            post.shelter_mg as int,
        ) + ")"@,
{
    let mut out = String::new();
    push_str(&mut out, verb);
    push_str(&mut out, " (");
    let a = format_shelter_pawns(pre.shelter_mg);
    push_str(&mut out, a.as_str());
    push_str(&mut out, " → ");
    let b = format_shelter_pawns(post.shelter_mg);
    push_str(&mut out, b.as_str());
    push_str(&mut out, ")");
    assert(out@ =~= verb@ + " ("@ + pawns_text(pre.shelter_mg as int) + " → "@ + pawns_text(
        post.shelter_mg as int,
    ) + ")"@);
    out
}

/// `head` and the clauses joined by ", ", with a full stop.
fn finish(head: &str, parts: &Vec<String>) -> (r: String)
    ensures
        r@ == head@ + joined(texts(parts@), ", "@) + "."@,
{
    let mut out = String::new();
    push_str(&mut out, head);
    push_joined(&mut out, parts, ", ");
    push_str(&mut out, ".");
    assert(out@ =~= head@ + joined(texts(parts@), ", "@) + "."@);
    out
}

fn side_exposure(
    suppressed: bool,
    attackers_d: i32,
    shelter_d: i32,
    pre: &KingSafetySnapshot,
    post: &KingSafetySnapshot,
    head: &str,
    verb: &str,
    Ghost(o): Ghost<KingSafetyOutcome>,
) -> (r: Option<String>)
    requires
        suppressed == spec_suppressed(o),
        attackers_d == attackers_delta(*pre, *post),
        shelter_d == shelter_delta(*pre, *post),
    ensures
        match r {
            Some(l) => exposure_line(o, *pre, *post, head@, verb@) == Some(l@),
            None => exposure_line(o, *pre, *post, head@, verb@) is None,
        },
{
    let up = attackers_d > 0;
    let down = !suppressed && shelter_d <= -KING_SHELTER_DELTA_THRESHOLD_CP;
    if !up && !down {
        return None;
    }
    let mut parts: Vec<String> = Vec::new();
    if up {
        parts.push(
            attackers_clause_exposure(post.attackers_count, pre.attackers_count, post.king_sq),
        );
    }
    if down {
        parts.push(shelter_clause(verb, pre, post));
    }
    let ghost want = clauses(
        *pre,
        *post,
        up,
        exposure_clause(
            post.attackers_count as int,
            pre.attackers_count as int,
            post.king_sq as int,
        ),
        down,
        verb@,
    );
    assert(texts(parts@) =~= want);
    Some(finish(head, &parts))
}

fn side_safer(
    suppressed: bool,
    attackers_d: i32,
    shelter_d: i32,
    pre: &KingSafetySnapshot,
    post: &KingSafetySnapshot,
    head: &str,
    Ghost(o): Ghost<KingSafetyOutcome>,
) -> (r: Option<String>)
    requires
        suppressed == spec_suppressed(o),
        attackers_d == attackers_delta(*pre, *post),
        shelter_d == shelter_delta(*pre, *post),
    ensures
        match r {
            Some(l) => safer_line(o, *pre, *post, head@) == Some(l@),
            None => safer_line(o, *pre, *post, head@) is None,
        },
{
    let down = attackers_d < 0;
    let up = !suppressed && shelter_d >= KING_SHELTER_DELTA_THRESHOLD_CP;
    if !down && !up {
        return None;
    }
    let mut parts: Vec<String> = Vec::new();
    if down {
        parts.push(attackers_clause_safer(post.attackers_count, pre.attackers_count, post.king_sq));
    }
    if up {
        parts.push(shelter_clause("shelter strengthened", pre, post));
    }
    let ghost want = clauses(
        *pre,
        *post,
        down,
        safer_clause(post.attackers_count as int, pre.attackers_count as int, post.king_sq as int),
        up,
        "shelter strengthened"@,
    );
    assert(texts(parts@) =~= want);
    Some(finish(head, &parts))
}

/// How our king got more exposed, when it did.
pub fn our_king_exposure_line(o: &KingSafetyOutcome) -> (r: Option<String>)
    requires
        outcome_fits(*o),
    ensures
        match r {
            Some(l) => spec_our_exposure(*o) == Some(l@),
            None => spec_our_exposure(*o) is None,
        },
{
    side_exposure(
        shelter_narration_suppressed(o),
        o.ours_attackers_delta(),
        o.ours_shelter_mg_delta(),
        &o.ours_pre,
        &o.ours_post,
        "Your king is more exposed: ",
        "shelter weakened",
        Ghost(*o),
    )
}

/// How the opponent's king got more exposed, when it did.
pub fn their_king_exposure_line(o: &KingSafetyOutcome) -> (r: Option<String>)
    requires
        outcome_fits(*o),
    ensures
        match r {
            Some(l) => spec_their_exposure(*o) == Some(l@),
            None => spec_their_exposure(*o) is None,
        },
{
    side_exposure(
        shelter_narration_suppressed(o),
        o.theirs_attackers_delta(),
        o.theirs_shelter_mg_delta(),
        &o.theirs_pre,
        &o.theirs_post,
        "You expose the opponent's king: ",
        "shelter cracked",
        Ghost(*o),
    )
}

/// How our king got safer, when it did.
pub fn our_king_safer_line(o: &KingSafetyOutcome) -> (r: Option<String>)
    requires
        outcome_fits(*o),
    ensures
        match r {
            Some(l) => spec_our_safer(*o) == Some(l@),
            None => spec_our_safer(*o) is None,
        },
{
    side_safer(
        shelter_narration_suppressed(o),
        o.ours_attackers_delta(),
        o.ours_shelter_mg_delta(),
        &o.ours_pre,
        &o.ours_post,
        "Your king is safer: ",
        Ghost(*o),
    )
}

/// How the opponent's king got safer, when it did.
pub fn their_king_safer_line(o: &KingSafetyOutcome) -> (r: Option<String>)
    requires
        outcome_fits(*o),
    ensures
        match r {
            Some(l) => spec_their_safer(*o) == Some(l@),
            None => spec_their_safer(*o) is None,
        },
{
    side_safer(
        shelter_narration_suppressed(o),
        o.theirs_attackers_delta(),
        o.theirs_shelter_mg_delta(),
        &o.theirs_pre,
        &o.theirs_post,
        "The opponent's king is safer: ",
        Ghost(*o),
    )
}

/// The king-safety lines: ours, then theirs; per side exposure is told
/// in preference to safety.
pub fn render_king_safety(outcome: &KingSafetyOutcome) -> (r: String)
    requires
        outcome_fits(*outcome),
    ensures
        r@ == opt_line(first_of(spec_our_exposure(*outcome), spec_our_safer(*outcome))) + opt_line(
            first_of(spec_their_exposure(*outcome), spec_their_safer(*outcome)),
        ),
{
    let mut out = String::new();
    let ours = match our_king_exposure_line(outcome) {
        Some(l) => Some(l),
        None => our_king_safer_line(outcome),
    };
    match &ours {
        Some(line) => push_indented(&mut out, line.as_str()),
        None => {},
    }
    let theirs = match their_king_exposure_line(outcome) {
        Some(l) => Some(l),
        None => their_king_safer_line(outcome),
    };
    match &theirs {
        Some(line) => push_indented(&mut out, line.as_str()),
        None => {},
    }
    assert(out@ =~= opt_line(first_of(spec_our_exposure(*outcome), spec_our_safer(*outcome)))
        + opt_line(first_of(spec_their_exposure(*outcome), spec_their_safer(*outcome))));
    out
}

} // verus!
