//! Text rendering of the forcing-moves report: every check, capture and
//! promotion available to each side, with the UCI letter of a promotion
//! piece.

use vstd::prelude::*;

use crate::alignments_view::{classical_points, spec_classical_points};
use crate::piece_fmt::{piece_label, piece_type_name, spec_piece_label, spec_piece_type_name};
use crate::position::{fen_setup, Board, Color, Piece, Position, Role, Setup};
use crate::rules::{
    check_of, is_check, legal_uci_list, legal_ucis, move_shape, play_uci, role_from_number,
    shape_of_move, spec_role_from_number, uci_play, MoveShape,
};
use crate::see::{ep_victim, see, spec_see};
use crate::text::{chars_of, decimal, push_char, push_decimal, push_str};
use crate::threats::{color_name, flipped, spec_color_name, spec_flip_fen, square_name, square_text};

verus! {

/// The forcing-moves report, one [`SideForcing`] per colour.
#[derive(Debug, Clone)]
pub struct ForcingView {
    pub white: SideForcing,
    pub black: SideForcing,
}

#[derive(Debug, Clone)]
pub struct SideForcing {
    pub side: String,
    /// Whether this is the side to move; the other side's list is read
    /// after a null move.
    pub is_to_move: bool,
    pub checks: Vec<ForcingMoveView>,
    pub captures: Vec<ForcingMoveView>,
    pub promotions: Vec<ForcingMoveView>,
}

#[derive(Debug, Clone)]
pub struct ForcingMoveView {
    pub san: String,
    pub uci: String,
    /// The moving piece, e.g. "Pf3" (case gives the colour).
    pub mover: String,
    /// The piece captured, for captures.
    pub captures: Option<CaptureTarget>,
    /// Whether the move gives check.
    pub gives_check: bool,
    /// The promotion piece letter, for promotions.
    pub promotion_piece: Option<String>,
}

#[derive(Debug, Clone)]
pub struct CaptureTarget {
    /// e.g. "qe6".
    pub piece: String,
    pub square: String,
    /// e.g. "queen".
    pub piece_kind: String,
    pub classical_points: u8,
    /// SEE verdict for the cheapest capture.
    pub see_verdict: String,
}

pub open spec fn spec_capture_suffix(m: ForcingMoveView) -> Seq<char> {
    match m.captures {
        Some(c) => "  — captures "@ + c.piece@ + " ("@ + decimal(c.classical_points as nat)
            + " pts; SEE: "@ + c.see_verdict@ + ")"@,
        None => Seq::empty(),
    }
}

/// What a capture wins, after the move's SAN: the captured piece, its
/// points and the SEE verdict; nothing for a non-capture.
pub fn capture_suffix(m: &ForcingMoveView) -> (r: String)
    ensures
        r@ == spec_capture_suffix(*m),
{
    let mut out = String::new();
    match &m.captures {
        Some(c) => {
            push_str(&mut out, "  — captures ");
            push_str(&mut out, c.piece.as_str());
            push_str(&mut out, " (");
            push_decimal(&mut out, c.classical_points as u64);
            push_str(&mut out, " pts; SEE: ");
            push_str(&mut out, c.see_verdict.as_str());
            push_str(&mut out, ")");
        },
        None => {},
    }
    assert(out@ =~= spec_capture_suffix(*m));
    out
}

pub open spec fn move_line(m: ForcingMoveView) -> Seq<char> {
    "    "@ + m.san@ + spec_capture_suffix(m) + "\n"@
}

pub open spec fn move_lines(v: Seq<ForcingMoveView>, k: int) -> Seq<char>
    decreases k,
{
    if k <= 0 {
        Seq::empty()
    } else {
        move_lines(v, k - 1) + move_line(v[k - 1])
    }
}

pub open spec fn promotion_line(m: ForcingMoveView) -> Seq<char> {
    "    "@ + m.san@ + " (promotes to "@ + match m.promotion_piece {
        Some(p) => p@,
        None => "?"@,
    } + ")\n"@
}

pub open spec fn promotion_lines(v: Seq<ForcingMoveView>, k: int) -> Seq<char>
    decreases k,
{
    if k <= 0 {
        Seq::empty()
    } else {
        promotion_lines(v, k - 1) + promotion_line(v[k - 1])
    }
}

pub open spec fn header(side: SideForcing) -> Seq<char> {
    if side.is_to_move {
        side.side@ + " (to move):"@
    } else {
        side.side@ + " (opponent, via null-move):"@
    }
}

pub open spec fn list_block(title: Seq<char>, v: Seq<ForcingMoveView>) -> Seq<char> {
    if v.len() == 0 {
        Seq::empty()
    } else {
        "  "@ + title + " ("@ + decimal(v.len()) + "):\n"@ + move_lines(v, v.len() as int)
    }
}

pub open spec fn promotions_block(v: Seq<ForcingMoveView>) -> Seq<char> {
    if v.len() == 0 {
        Seq::empty()
    } else {
        "  promotions ("@ + decimal(v.len()) + "):\n"@ + promotion_lines(v, v.len() as int)
    }
}

/// One side: its header, then its checks, captures and promotions; a
/// side with none says so on the header line.
pub open spec fn side_text(side: SideForcing) -> Seq<char> {
    if side.checks@.len() == 0 && side.captures@.len() == 0 && side.promotions@.len() == 0 {
        header(side) + " (no forcing moves)\n"@
    } else {
        header(side) + "\n"@ + list_block("checks"@, side.checks@) + list_block(
            "captures"@,
            side.captures@,
        ) + promotions_block(side.promotions@)
    }
}

pub open spec fn view_text(v: ForcingView) -> Seq<char> {
    side_text(v.white) + "\n"@ + side_text(v.black) + "\n"@
}

fn push_list_block(out: &mut String, title: &str, v: &Vec<ForcingMoveView>)
    ensures
        final(out)@ == old(out)@ + list_block(title@, v@),
{
    if v.len() == 0 {
        assert(out@ =~= old(out)@ + list_block(title@, v@));
        return;
    }
    push_str(out, "  ");
    push_str(out, title);
    push_str(out, " (");
    push_decimal(out, v.len() as u64);
    push_str(out, "):\n");
    let ghost head = out@;
    let mut i: usize = 0;
    while i < v.len()
        invariant
            i <= v@.len(),
            out@ == head + move_lines(v@, i as int),
        decreases v.len() - i,
    {
        let m = &v[i];
        push_str(out, "    ");
        push_str(out, m.san.as_str());
        let suffix = capture_suffix(m);
        push_str(out, suffix.as_str());
        push_str(out, "\n");
        i = i + 1;
        assert(out@ =~= head + move_lines(v@, i as int));
    }
    assert(out@ =~= old(out)@ + list_block(title@, v@));
}

fn push_promotions(out: &mut String, v: &Vec<ForcingMoveView>)
    ensures
        final(out)@ == old(out)@ + promotions_block(v@),
{
    if v.len() == 0 {
        assert(out@ =~= old(out)@ + promotions_block(v@));
        return;
    }
    push_str(out, "  promotions (");
    push_decimal(out, v.len() as u64);
    push_str(out, "):\n");
    let ghost head = out@;
    let mut i: usize = 0;
    while i < v.len()
        invariant
            i <= v@.len(),
            out@ == head + promotion_lines(v@, i as int),
        decreases v.len() - i,
    {
        let m = &v[i];
        push_str(out, "    ");
        push_str(out, m.san.as_str());
        push_str(out, " (promotes to ");
        match &m.promotion_piece {
            Some(p) => push_str(out, p.as_str()),
            None => push_str(out, "?"),
        }
        push_str(out, ")\n");
        i = i + 1;
        assert(out@ =~= head + promotion_lines(v@, i as int));
    }
    assert(out@ =~= old(out)@ + promotions_block(v@));
}

fn push_header(out: &mut String, side: &SideForcing)
    ensures
        final(out)@ == old(out)@ + header(*side),
{
    push_str(out, side.side.as_str());
    if side.is_to_move {
        push_str(out, " (to move):");
    } else {
        push_str(out, " (opponent, via null-move):");
    }
    assert(out@ =~= old(out)@ + header(*side));
}

/// Render one side's forcing moves.
fn render_side(out: &mut String, side: &SideForcing)
    ensures
        final(out)@ == old(out)@ + side_text(*side),
{
    push_header(out, side);
    if side.checks.len() == 0 && side.captures.len() == 0 && side.promotions.len() == 0 {
        push_str(out, " (no forcing moves)\n");
        assert(out@ =~= old(out)@ + side_text(*side));
        return;
    }
    push_str(out, "\n");
    let ghost a = out@;
    push_list_block(out, "checks", &side.checks);
    push_list_block(out, "captures", &side.captures);
    push_promotions(out, &side.promotions);
    assert(out@ =~= old(out)@ + side_text(*side));
}

/// Multi-line rendering: each side followed by a blank line.
pub fn render_text(view: &ForcingView) -> (r: String)
    ensures
        r@ == view_text(*view),
{
    let mut out = String::new();
    render_side(&mut out, &view.white);
    push_str(&mut out, "\n");
    render_side(&mut out, &view.black);
    push_str(&mut out, "\n");
    assert(out@ =~= view_text(*view));
    out
}

/// The UCI letter of a promotion piece (`?` for a king or pawn).
pub open spec fn promotion_letter(role: Role) -> Seq<char> {
    match role {
        Role::Queen => "q"@,
        Role::Rook => "r"@,
        Role::Bishop => "b"@,
        Role::Knight => "n"@,
        _ => "?"@,
    }
}

/// The UCI letter of a promotion piece.
pub fn promoted_to_letter(role: Role) -> (r: String)
    ensures
        r@ == promotion_letter(role),
{
    let mut out = String::new();
    match role {
        Role::Queen => push_str(&mut out, "q"),
        Role::Rook => push_str(&mut out, "r"),
        Role::Bishop => push_str(&mut out, "b"),
        Role::Knight => push_str(&mut out, "n"),
        _ => push_str(&mut out, "?"),
    }
    proof {
        assert(out@ =~= promotion_letter(role));
    }
    out
}

/// The square of the piece a capture from `from` to `to` takes: `to`, or,
/// when `to` is empty (en passant), the pawn beside it on `from`'s rank.
pub open spec fn capture_square(b: Board, from: int, to: int) -> int {
    if b.spec_piece_at(to) is Some {
        to
    } else {
        ep_victim(from, to)
    }
}

/// SEE verdict of the capture from `from` to `to`.
pub open spec fn capture_verdict(setup: Setup, from: int, to: int) -> Seq<char> {
    if spec_see(setup, from, to) > 0 {
        "wins material"@
    } else if spec_see(setup, from, to) == 0 {
        "even trade"@
    } else {
        "loses material"@
    }
}

/// `shakmaty` describes and plays the move.
pub open spec fn describable(fen: Seq<char>, setup: Setup, uci: Seq<char>) -> bool {
    &&& move_shape(fen, uci) is Some
    &&& uci_play(fen, uci) is Some
}

/// The piece a move moves: the side to move's piece of the move's role.
pub open spec fn moving_piece(setup: Setup, m: MoveShape) -> Piece {
    Piece { color: setup.turn, role: spec_role_from_number(m.role) }
}

/// `v` describes the legal move `uci` of the position `fen` / `setup`.
pub open spec fn describes_move(v: ForcingMoveView, fen: Seq<char>, setup: Setup, uci: Seq<char>) -> bool {
    &&& move_shape(fen, uci) matches Some(m)
    &&& uci_play(fen, uci) matches Some((san, after))
    &&& v.uci@ == uci
    &&& v.san@ == san
    &&& v.mover@ == spec_piece_label(moving_piece(setup, m), m.from as int)
    &&& v.gives_check == check_of(after)
    &&& (v.promotion_piece is Some) == (uci.len() == 5)
    &&& (v.promotion_piece matches Some(p) ==> p@ == seq![uci[4]])
    &&& match m.captured {
        None => v.captures is None,
        Some(_) => {
            let cs = capture_square(setup.board, m.from as int, m.to as int);
            match setup.board.spec_piece_at(cs) {
                None => v.captures is None,
                Some(tp) => v.captures matches Some(c) && c.piece@ == spec_piece_label(tp, cs)
                    && c.square@ == square_text(cs) && c.piece_kind@ == spec_piece_type_name(
                    tp.role,
                ) && c.classical_points == spec_classical_points(tp.role) && c.see_verdict@
                    == capture_verdict(setup, m.from as int, m.to as int),
            }
        },
    }
}

/// Which list a move joins: 0 checks, 1 captures, 2 promotions.
pub open spec fn forcing_joins(fen: Seq<char>, setup: Setup, uci: Seq<char>, list: int) -> bool {
    describable(fen, setup, uci) && forcing_kind(fen, setup, uci, list)
}

/// The move gives check (list 0), takes a piece (1) or promotes (2).
pub open spec fn forcing_kind(fen: Seq<char>, setup: Setup, uci: Seq<char>, list: int) -> bool {
    if list == 0 {
        uci_play(fen, uci) matches Some((_, after)) && check_of(after)
    } else if list == 1 {
        move_shape(fen, uci) matches Some(m) && m.captured is Some && setup.board.spec_piece_at(
            capture_square(setup.board, m.from as int, m.to as int),
        ) is Some
    } else {
        uci.len() == 5
    }
}

/// The moves among the first `k` of `moves` that join list `list`.
pub open spec fn forcing_prefix(
    fen: Seq<char>,
    setup: Setup,
    moves: Seq<Seq<char>>,
    list: int,
    k: int,
) -> Seq<Seq<char>>
    decreases k,
{
    if k <= 0 {
        Seq::empty()
    } else if forcing_joins(fen, setup, moves[k - 1], list) {
        forcing_prefix(fen, setup, moves, list, k - 1).push(moves[k - 1])
    } else {
        forcing_prefix(fen, setup, moves, list, k - 1)
    }
}

pub open spec fn forcing_list_matches(
    v: Seq<ForcingMoveView>,
    fen: Seq<char>,
    setup: Setup,
    moves: Seq<Seq<char>>,
    list: int,
    k: int,
) -> bool {
    &&& v.len() == forcing_prefix(fen, setup, moves, list, k).len()
    &&& forall|i: int|
        0 <= i < v.len() ==> describes_move(
            #[trigger] v[i],
            fen,
            setup,
            forcing_prefix(fen, setup, moves, list, k)[i],
        )
}

/// The forcing moves of the side to move in `fen` / `setup`, labelled
/// `side`: its checks, captures and promotions, in move generation order.
pub open spec fn scan_matches(s: SideForcing, fen: Seq<char>, setup: Setup, side: Color, to_move: bool) -> bool {
    let moves = legal_uci_list(fen);
    &&& forall|i: int| 0 <= i < moves.len() ==> describable(fen, setup, #[trigger] moves[i])
    &&& s.side@ == spec_color_name(side)
    &&& s.is_to_move == to_move
    &&& forcing_list_matches(s.checks@, fen, setup, moves, 0, moves.len() as int)
    &&& forcing_list_matches(s.captures@, fen, setup, moves, 1, moves.len() as int)
    &&& forcing_list_matches(s.promotions@, fen, setup, moves, 2, moves.len() as int)
}

/// An empty report for `side`, which is not to move.
pub open spec fn empty_side(s: SideForcing, side: Color) -> bool {
    &&& s.side@ == spec_color_name(side)
    &&& !s.is_to_move
    &&& s.checks@.len() == 0 && s.captures@.len() == 0 && s.promotions@.len() == 0
}

/// The two copies hold the same texts and values.
pub open spec fn same_move_view(a: ForcingMoveView, b: ForcingMoveView) -> bool {
    &&& a.san@ == b.san@
    &&& a.uci@ == b.uci@
    &&& a.mover@ == b.mover@
    &&& a.gives_check == b.gives_check
    &&& (a.promotion_piece is Some) == (b.promotion_piece is Some)
    &&& (a.promotion_piece matches Some(p) ==> b.promotion_piece matches Some(q) && p@ == q@)
    &&& (a.captures is Some) == (b.captures is Some)
    &&& (a.captures matches Some(c) ==> b.captures matches Some(d) && c.piece@ == d.piece@
        && c.square@ == d.square@ && c.piece_kind@ == d.piece_kind@ && c.classical_points
        == d.classical_points && c.see_verdict@ == d.see_verdict@)
}

impl ForcingMoveView {
    /// A field-by-field copy.
    pub fn duplicate(&self) -> (r: ForcingMoveView)
        ensures
            same_move_view(r, *self),
    {
        ForcingMoveView {
            san: self.san.clone(),
            uci: self.uci.clone(),
            mover: self.mover.clone(),
            captures: match &self.captures {
                Some(c) => Some(
                    CaptureTarget {
                        piece: c.piece.clone(),
                        square: c.square.clone(),
                        piece_kind: c.piece_kind.clone(),
                        classical_points: c.classical_points,
                        see_verdict: c.see_verdict.clone(),
                    },
                ),
                None => None,
            },
            gives_check: self.gives_check,
            promotion_piece: match &self.promotion_piece {
                Some(p) => Some(p.clone()),
                None => None,
            },
        }
    }
}

proof fn lemma_describes_copy(v: ForcingMoveView, c: ForcingMoveView, fen: Seq<char>, setup: Setup, uci: Seq<char>)
    requires
        describes_move(v, fen, setup, uci),
        same_move_view(c, v),
    ensures
        describes_move(c, fen, setup, uci),
{
}

/// Adding the next move to a list keeps the list matching.
proof fn lemma_forcing_step(
    v: Seq<ForcingMoveView>,
    w: Seq<ForcingMoveView>,
    fen: Seq<char>,
    setup: Setup,
    moves: Seq<Seq<char>>,
    list: int,
    k: int,
)
    requires
        0 <= k < moves.len(),
        forcing_list_matches(v, fen, setup, moves, list, k),
        forcing_joins(fen, setup, moves[k], list) ==> w.len() == v.len() + 1 && w.drop_last() == v
            && describes_move(w.last(), fen, setup, moves[k]),
        !forcing_joins(fen, setup, moves[k], list) ==> w == v,
    ensures
        forcing_list_matches(w, fen, setup, moves, list, k + 1),
{
    if forcing_joins(fen, setup, moves[k], list) {
        let p = forcing_prefix(fen, setup, moves, list, k);
        assert(forcing_prefix(fen, setup, moves, list, k + 1) == p.push(moves[k]));
        assert forall|i: int| 0 <= i < w.len() implies describes_move(
            #[trigger] w[i],
            fen,
            setup,
            forcing_prefix(fen, setup, moves, list, k + 1)[i],
        ) by {
            if i < v.len() {
                assert(w[i] == v[i]);
            }
        }
    }
}

/// Describe the legal move `uci`; `None` when it is not describable.
fn classify(position: &Position, uci: &str) -> (r: Option<ForcingMoveView>)
    ensures
        r is Some <==> describable(position.fen_text(), position.spec_setup(), uci@),
        r matches Some(v) ==> describes_move(v, position.fen_text(), position.spec_setup(), uci@),
{
    let fen = position.fen();
    let board = &position.setup().board;
    let shape = match shape_of_move(fen, uci) {
        Some(m) => m,
        None => return None,
    };
    let (san, after) = match play_uci(fen, uci) {
        Ok(p) => p,
        Err(_) => return None,
    };
    let mover_piece = Piece { color: position.setup().turn, role: role_from_number(shape.role) };
    let captures = match shape.captured {
        None => None,
        Some(_) => {
            let cs: u8 = if board.piece_at(shape.to).is_some() {
                shape.to
            } else {
                (shape.from / 8) * 8 + shape.to % 8
            };
            match board.piece_at(cs) {
                None => None,
                Some(tp) => {
                    let v = see(position, shape.from, shape.to);
                    let mut verdict = String::new();
                    if v > 0 {
                        push_str(&mut verdict, "wins material");
                    } else if v == 0 {
                        push_str(&mut verdict, "even trade");
                    } else {
                        push_str(&mut verdict, "loses material");
                    }
                    let mut kind = String::new();
                    push_str(&mut kind, piece_type_name(tp.role));
                    Some(
                        CaptureTarget {
                            piece: piece_label(tp, cs),
                            square: square_name(cs),
                            piece_kind: kind,
                            classical_points: classical_points(tp.role),
                            see_verdict: verdict,
                        },
                    )
                },
            }
        },
    };
    let cs = chars_of(uci);
    let promotion_piece = if cs.len() == 5 {
        let mut p = String::new();
        push_char(&mut p, cs[4]);
        proof {
            assert(p@ =~= seq![uci@[4]]);
        }
        Some(p)
    } else {
        None
    };
    let gives_check = is_check(after.as_str());
    Some(
        ForcingMoveView {
            san,
            uci: uci.to_owned(),
            mover: piece_label(mover_piece, shape.from),
            captures,
            gives_check,
            promotion_piece,
        },
    )
}

/// The checks, captures and promotions of the side to move of `position`.
fn scan_side(position: &Position, side: Color, to_move: bool) -> (r: SideForcing)
    ensures
        scan_matches(r, position.fen_text(), position.spec_setup(), side, to_move),
{
    let moves = legal_ucis(position.fen());
    let ghost fen_t = position.fen_text();
    let ghost st = position.spec_setup();
    let ghost list = legal_uci_list(fen_t);
    let mut checks: Vec<ForcingMoveView> = Vec::new();
    let mut captures: Vec<ForcingMoveView> = Vec::new();
    let mut promotions: Vec<ForcingMoveView> = Vec::new();
    let mut k: usize = 0;
    while k < moves.len()
        invariant
            k <= moves@.len(),
            fen_t == position.fen_text(),
            st == position.spec_setup(),
            list == legal_uci_list(fen_t),
            moves@.len() == list.len(),
            forall|j: int| 0 <= j < moves@.len() ==> #[trigger] moves@[j]@ == list[j],
            forcing_list_matches(checks@, fen_t, st, list, 0, k as int),
            forcing_list_matches(captures@, fen_t, st, list, 1, k as int),
            forcing_list_matches(promotions@, fen_t, st, list, 2, k as int),
        decreases moves.len() - k,
    {
        let ghost u = list[k as int];
        let ghost old_checks = checks@;
        let ghost old_caps = captures@;
        let ghost old_proms = promotions@;
        match classify(position, moves[k].as_str()) {
            Some(v) => {
                if v.gives_check {
                    let c = v.duplicate();
                    proof {
                        lemma_describes_copy(v, c, fen_t, st, u);
                    }
                    checks.push(c);
                    assert(checks@.drop_last() =~= old_checks);
                }
                if v.captures.is_some() {
                    let c = v.duplicate();
                    proof {
                        lemma_describes_copy(v, c, fen_t, st, u);
                    }
                    captures.push(c);
                    assert(captures@.drop_last() =~= old_caps);
                }
                if v.promotion_piece.is_some() {
                    let c = v.duplicate();
                    proof {
                        lemma_describes_copy(v, c, fen_t, st, u);
                    }
                    promotions.push(c);
                    assert(promotions@.drop_last() =~= old_proms);
                }
            },
            None => {},
        }
        proof {
            lemma_forcing_step(old_checks, checks@, fen_t, st, list, 0, k as int);
            lemma_forcing_step(old_caps, captures@, fen_t, st, list, 1, k as int);
            lemma_forcing_step(old_proms, promotions@, fen_t, st, list, 2, k as int);
        }
        k = k + 1;
    }
    assert forall|i: int| 0 <= i < list.len() implies describable(fen_t, st, #[trigger] list[i]) by {
        assert(moves@[i]@ == list[i]);
    }
    let mut name = String::new();
    push_str(&mut name, color_name(side));
    SideForcing { side: name, is_to_move: to_move, checks, captures, promotions }
}

fn empty_for(side: Color) -> (r: SideForcing)
    ensures
        empty_side(r, side),
{
    let mut name = String::new();
    push_str(&mut name, color_name(side));
    SideForcing {
        side: name,
        is_to_move: false,
        checks: Vec::new(),
        captures: Vec::new(),
        promotions: Vec::new(),
    }
}

/// The opponent's report after a null move: empty while the side to move
/// is in check (no null move is legal then), else the scan of the
/// null-moved position.
pub open spec fn opponent_matches(s: SideForcing, fen: Seq<char>, side: Color) -> bool {
    if check_of(fen) {
        empty_side(s, side)
    } else {
        match spec_flip_fen(fen) {
            Some(f) => match fen_setup(f) {
                Some(st) => scan_matches(s, f, st, side, false),
                None => empty_side(s, side),
            },
            None => empty_side(s, side),
        }
    }
}

/// The forcing-move report of both colours: the side to move's checks,
/// captures and promotions, and the other side's after a null move.
pub fn build(pos: &Position) -> (r: ForcingView)
    ensures
        ({
            let setup = pos.spec_setup();
            let (mover, other) = if setup.turn == Color::White {
                (r.white, r.black)
            } else {
                (r.black, r.white)
            };
            &&& scan_matches(mover, pos.fen_text(), setup, setup.turn, true)
            &&& opponent_matches(other, pos.fen_text(), setup.turn.spec_other())
        }),
{
    let stm = pos.setup().turn;
    let opp = stm.other();
    let mover = scan_side(pos, stm, true);
    let other = if is_check(pos.fen()) {
        empty_for(opp)
    } else {
        match flipped(pos) {
            Some(p) => scan_side(&p, opp, false),
            None => empty_for(opp),
        }
    };
    match stm {
        Color::White => ForcingView { white: mover, black: other },
        Color::Black => ForcingView { white: other, black: mover },
    }
}

proof fn lemma_forcing_members(fen: Seq<char>, setup: Setup, moves: Seq<Seq<char>>, list: int, k: int)
    requires
        0 <= k <= moves.len(),
    ensures
        forall|x: Seq<char>|
            #[trigger] forcing_prefix(fen, setup, moves, list, k).contains(x) <==> (moves.take(
                k,
            ).contains(x) && forcing_joins(fen, setup, x, list)),
    decreases k,
{
    broadcast use vstd::seq_lib::lemma_seq_contains_after_push;

    if k == 0 {
        assert forall|x: Seq<char>| !moves.take(0).contains(x) by {}
    } else {
        lemma_forcing_members(fen, setup, moves, list, k - 1);
        let prev = forcing_prefix(fen, setup, moves, list, k - 1);
        let m = moves[k - 1];
        assert(moves.take(k) =~= moves.take(k - 1).push(m));
        assert forall|x: Seq<char>|
            #[trigger] forcing_prefix(fen, setup, moves, list, k).contains(x) <==> (moves.take(
                k,
            ).contains(x) && forcing_joins(fen, setup, x, list)) by {
            assert(moves.take(k).contains(x) <==> (m == x || moves.take(k - 1).contains(x)));
            if forcing_joins(fen, setup, m, list) {
                assert(forcing_prefix(fen, setup, moves, list, k) == prev.push(m));
                assert(prev.push(m).contains(x) <==> (m == x || prev.contains(x)));
            } else {
                assert(forcing_prefix(fen, setup, moves, list, k) == prev);
            }
        }
    }
}

/// The UCI texts of a list of forcing moves, in order.
pub open spec fn forcing_ucis(v: Seq<ForcingMoveView>) -> Seq<Seq<char>> {
    v.map_values(|m: ForcingMoveView| m.uci@)
}

proof fn lemma_forcing_ucis(
    v: Seq<ForcingMoveView>,
    fen: Seq<char>,
    setup: Setup,
    moves: Seq<Seq<char>>,
    list: int,
    k: int,
)
    requires
        forcing_list_matches(v, fen, setup, moves, list, k),
    ensures
        forcing_ucis(v) == forcing_prefix(fen, setup, moves, list, k),
{
    let p = forcing_prefix(fen, setup, moves, list, k);
    assert forall|i: int| 0 <= i < v.len() implies #[trigger] forcing_ucis(v)[i] == p[i] by {
        assert(describes_move(v[i], fen, setup, p[i]));
    }
    assert(forcing_ucis(v) =~= p);
}

/// Each forcing list holds exactly the legal moves of its kind, every one
/// of them, in move
/// generation order: the checks are the moves that give check, the
/// captures those that take a piece, the promotions those that promote;
/// a move of several kinds is in each of its lists.
pub proof fn law_forcing_lists(s: SideForcing, fen: Seq<char>, setup: Setup, side: Color, to_move: bool)
    requires
        scan_matches(s, fen, setup, side, to_move),
    ensures
        ({
            let moves = legal_uci_list(fen);
            &&& forall|x: Seq<char>|
                #[trigger] forcing_ucis(s.checks@).contains(x) <==> (moves.contains(x) && (uci_play(
                    fen,
                    x,
                ) matches Some((_, after)) && check_of(after)))
            &&& forall|x: Seq<char>|
                #[trigger] forcing_ucis(s.captures@).contains(x) <==> (moves.contains(x) && (
                move_shape(fen, x) matches Some(m) && m.captured is Some
                    && setup.board.spec_piece_at(
                    if setup.board.spec_piece_at(m.to as int) is Some {
                        m.to as int
                    } else {
                        (m.from as int / 8) * 8 + m.to as int % 8
                    },
                ) is Some))
            &&& forall|x: Seq<char>|
                #[trigger] forcing_ucis(s.promotions@).contains(x) <==> (moves.contains(x)
                    && x.len() == 5)
            &&& forall|i: int|
                0 <= i < s.checks@.len() ==> (#[trigger] s.checks@[i]).gives_check
            &&& forall|i: int|
                0 <= i < s.captures@.len() ==> (#[trigger] s.captures@[i]).captures is Some
            &&& forall|i: int|
                0 <= i < s.promotions@.len() ==> (#[trigger] s.promotions@[i]).promotion_piece is Some
        }),
{
    let moves = legal_uci_list(fen);
    let n = moves.len() as int;
    lemma_forcing_ucis(s.checks@, fen, setup, moves, 0, n);
    lemma_forcing_ucis(s.captures@, fen, setup, moves, 1, n);
    lemma_forcing_ucis(s.promotions@, fen, setup, moves, 2, n);
    lemma_forcing_members(fen, setup, moves, 0, n);
    lemma_forcing_members(fen, setup, moves, 1, n);
    lemma_forcing_members(fen, setup, moves, 2, n);
    assert(moves.take(n) =~= moves);
    assert forall|x: Seq<char>| moves.contains(x) implies describable(fen, setup, x) by {
        let i = choose|i: int| 0 <= i < moves.len() && moves[i] == x;
        assert(describable(fen, setup, moves[i]));
    }
    assert forall|i: int| 0 <= i < s.checks@.len() implies (#[trigger] s.checks@[i]).gives_check by {
        let u = forcing_prefix(fen, setup, moves, 0, n)[i];
        assert(describes_move(s.checks@[i], fen, setup, u));
        assert(forcing_ucis(s.checks@)[i] == u);
        assert(forcing_prefix(fen, setup, moves, 0, n).contains(u));
    }
    assert forall|i: int| 0 <= i < s.captures@.len() implies (#[trigger] s.captures@[i]).captures is Some by {
        let u = forcing_prefix(fen, setup, moves, 1, n)[i];
        assert(describes_move(s.captures@[i], fen, setup, u));
        assert(forcing_prefix(fen, setup, moves, 1, n).contains(u));
    }
    assert forall|i: int| 0 <= i < s.promotions@.len() implies (#[trigger] s.promotions@[i]).promotion_piece is Some by {
        let u = forcing_prefix(fen, setup, moves, 2, n)[i];
        assert(describes_move(s.promotions@[i], fen, setup, u));
        assert(forcing_prefix(fen, setup, moves, 2, n).contains(u));
    }
}

/// A capture's verdict reads its SEE: "wins material" exactly when the SEE
/// is positive, "even trade" exactly when it is zero, "loses material"
/// exactly when it is negative.
pub proof fn law_capture_verdict_reads_see(v: ForcingMoveView, fen: Seq<char>, setup: Setup, uci: Seq<char>)
    requires
        describes_move(v, fen, setup, uci),
        v.captures is Some,
    ensures
        ({
            let m = move_shape(fen, uci).unwrap();
            let c = v.captures.unwrap();
            let see = spec_see(setup, m.from as int, m.to as int);
            &&& (c.see_verdict@ == "wins material"@) <==> see > 0
            &&& (c.see_verdict@ == "even trade"@) <==> see == 0
            &&& (c.see_verdict@ == "loses material"@) <==> see < 0
        }),
{
    reveal_strlit("wins material");
    reveal_strlit("even trade");
    reveal_strlit("loses material");
    assert("wins material"@ != "even trade"@) by {
        assert("wins material"@.len() != "even trade"@.len());
    }
    assert("wins material"@ != "loses material"@) by {
        assert("wins material"@[0] != "loses material"@[0]);
    }
    assert("even trade"@ != "loses material"@) by {
        assert("even trade"@.len() != "loses material"@.len());
    }
}

} // verus!
