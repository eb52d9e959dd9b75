//! Checks, captures and material threats for both sides.
//!
//! A [`ThreatScan`] enumerates, for the side to move:
//! - **checks**: legal moves that give check;
//! - **captures**: legal moves that take a piece, with their SEE;
//! - **threats**: quiet, non-checking moves after which the mover has an
//!   SEE-positive capture on some enemy square (the king excluded).
//!
//! [`ThreatScans::from_position`] scans the side to move and, through the
//! null-move-flipped position, the opponent; the flip fails when the side
//! to move is in check. Squares are written as names (`"e4"`) and roles as
//! lowercase letters.

use vstd::prelude::*;

use crate::position::{fen_setup, Color, Position, Role, Setup};
use crate::rules::{
    canonical_fen, check_of, is_check, legal_uci_list, legal_ucis, move_shape, normalize_fen,
    play_uci, shape_of_move, spec_role_from_number, role_from_number, uci_play,
};
use crate::see::{see, see_on_square, spec_see, spec_see_on_square};
use crate::text::{chars_of, push_char, push_str, same_chars, spec_tokens, string_of, tokens};

verus! {

#[derive(Debug, Clone, Default)]
pub struct ThreatMove {
    pub uci: String,
    pub san: String,
    pub from: String,
    pub to: String,
    pub role: String,
    pub captured: Option<String>,
    /// SEE (centipawns) for this move; zero for non-captures.
    pub see: i32,
    pub gives_check: bool,
    /// Enemy squares where the mover has a winning follow-up capture in the
    /// resulting position.
    pub threatens: Vec<String>,
}

#[derive(Debug, Clone, Default)]
pub struct ThreatScan {
    /// Whose moves this scan describes: `"white"` or `"black"`.
    pub side: String,
    /// Moves that deliver check (may also appear in `captures`).
    pub checks: Vec<ThreatMove>,
    /// Moves that capture a piece (may also appear in `checks`).
    pub captures: Vec<ThreatMove>,
    /// Quiet, non-checking moves that threaten to win material next turn.
    pub threats: Vec<ThreatMove>,
}

#[derive(Debug, Clone, Default)]
pub struct ThreatScans {
    pub mover: ThreatScan,
    /// `None` when the null-move flip is illegal: the mover is in check.
    pub opponent: Option<ThreatScan>,
}

/// Name of a square, e.g. "e4".
pub open spec fn square_text(sq: int) -> Seq<char> {
    seq![('a' as int + sq % 8) as char, ('1' as int + sq / 8) as char]
}

/// Lowercase letter of a role.
pub open spec fn spec_role_letter(r: Role) -> char {
    match r {
        Role::Pawn => 'p',
        Role::Knight => 'n',
        Role::Bishop => 'b',
        Role::Rook => 'r',
        Role::Queen => 'q',
        Role::King => 'k',
    }
}

pub open spec fn spec_color_name(c: Color) -> Seq<char> {
    match c {
        Color::White => "white"@,
        Color::Black => "black"@,
    }
}

/// Name of a square.
pub fn square_name(sq: u8) -> (r: String)
    requires
        sq < 64,
    ensures
        r@ == square_text(sq as int),
{
    let mut out = String::new();
    push_char(&mut out, (97u8 + sq % 8) as char);
    push_char(&mut out, (49u8 + sq / 8) as char);
    assert(out@ =~= square_text(sq as int));
    out
}

/// Lowercase letter of a role.
pub fn role_letter(r: Role) -> (c: char)
    ensures
        c == spec_role_letter(r),
{
    match r {
        Role::Pawn => 'p',
        Role::Knight => 'n',
        Role::Bishop => 'b',
        Role::Rook => 'r',
        Role::Queen => 'q',
        Role::King => 'k',
    }
}

pub fn color_name(c: Color) -> (r: &'static str)
    ensures
        r@ == spec_color_name(c),
{
    match c {
        Color::White => "white",
        Color::Black => "black",
    }
}

/// `side` wins material by capturing on `sq`: an enemy piece other than
/// the king stands there and `side`'s SEE on it is positive.
pub open spec fn wins_on(setup: Setup, side: Color, sq: int) -> bool {
    &&& setup.board.spec_piece_at(sq) matches Some(p)
    &&& p.color != side
    &&& p.role != Role::King
    &&& spec_see_on_square(setup, sq, side) matches Some(v)
    &&& v > 0
}

/// Squares below `n`, ascending, where `side` wins material.
pub open spec fn winning_squares(setup: Setup, side: Color, n: int) -> Seq<int>
    decreases n,
{
    if n <= 0 {
        Seq::empty()
    } else if wins_on(setup, side, n - 1) {
        winning_squares(setup, side, n - 1).push(n - 1)
    } else {
        winning_squares(setup, side, n - 1)
    }
}

/// Enemy squares where `side` has an SEE-positive capture, ascending. The
/// king is excluded: checks are reported as checks.
pub fn winning_captures_for(position: &Position, side: Color) -> (r: Vec<u8>)
    ensures
        r@.len() == winning_squares(position.spec_setup(), side, 64).len(),
        forall|i: int|
            0 <= i < r@.len() ==> #[trigger] r@[i] as int == winning_squares(
                position.spec_setup(),
                side,
                64,
            )[i],
        forall|i: int| 0 <= i < r@.len() ==> #[trigger] r@[i] < 64,
{
    let board = &position.setup().board;
    let mut out: Vec<u8> = Vec::new();
    let mut sq: u8 = 0;
    while sq < 64
        invariant
            sq <= 64,
            *board == position.spec_setup().board,
            out@.len() == winning_squares(position.spec_setup(), side, sq as int).len(),
            forall|i: int| 0 <= i < out@.len() ==> #[trigger] out@[i] < sq,
            forall|i: int|
                0 <= i < out@.len() ==> #[trigger] out@[i] as int == winning_squares(
                    position.spec_setup(),
                    side,
                    sq as int,
                )[i],
        decreases 64 - sq,
    {
        let wins = match board.piece_at(sq) {
            None => false,
            Some(piece) => {
                if piece.color == side || piece.role == Role::King {
                    false
                } else {
                    match see_on_square(position, sq, side) {
                        Some(v) => v > 0,
                        None => false,
                    }
                }
            },
        };
        assert(wins == wins_on(position.spec_setup(), side, sq as int));
        if wins {
            out.push(sq);
        }
        sq = sq + 1;
    }
    out
}

/// The resulting position of a legal move and the squares the mover then
/// wins material on.
pub open spec fn threatened_squares(fen: Seq<char>, uci: Seq<char>, side: Color) -> Seq<int> {
    match uci_play(fen, uci) {
        Some((_, after)) => match fen_setup(after) {
            Some(s) => winning_squares(s, side, 64),
            None => Seq::empty(),
        },
        None => Seq::empty(),
    }
}

/// `t` annotates the legal move `uci` of the position `fen` / `setup`.
pub open spec fn annotates(t: ThreatMove, fen: Seq<char>, setup: Setup, uci: Seq<char>) -> bool {
    &&& move_shape(fen, uci) matches Some(m)
    &&& uci_play(fen, uci) matches Some((san, after))
    &&& t.uci@ == uci
    &&& t.san@ == san
    &&& t.from@ == square_text(m.from as int)
    &&& t.to@ == square_text(m.to as int)
    &&& t.role@ == seq![spec_role_letter(spec_role_from_number(m.role))]
    &&& (match m.captured {
        Some(c) => t.captured matches Some(s) && s@ == seq![
            spec_role_letter(spec_role_from_number(c)),
        ],
        None => t.captured is None,
    })
    &&& t.see == spec_see(setup, m.from as int, m.to as int)
    &&& t.gives_check == check_of(after)
    &&& t.threatens@.len() == threatened_squares(fen, uci, setup.turn).len()
    &&& forall|i: int|
        0 <= i < t.threatens@.len() ==> #[trigger] t.threatens@[i]@ == square_text(
            threatened_squares(fen, uci, setup.turn)[i],
        )
}

/// The move can be annotated: `shakmaty` describes it and plays it.
pub open spec fn annotatable(fen: Seq<char>, uci: Seq<char>) -> bool {
    move_shape(fen, uci) is Some && uci_play(fen, uci) is Some
}

pub open spec fn is_capture(fen: Seq<char>, uci: Seq<char>) -> bool {
    move_shape(fen, uci) matches Some(m) && m.captured is Some
}

pub open spec fn is_checking(fen: Seq<char>, uci: Seq<char>) -> bool {
    uci_play(fen, uci) matches Some((_, after)) && check_of(after)
}

/// Which list a move joins: 0 captures, 1 checks, 2 threats.
pub open spec fn joins(fen: Seq<char>, setup: Setup, uci: Seq<char>, list: int) -> bool {
    annotatable(fen, uci) && if list == 0 {
        is_capture(fen, uci)
    } else if list == 1 {
        is_checking(fen, uci)
    } else {
        !is_capture(fen, uci) && !is_checking(fen, uci) && threatened_squares(
            fen,
            uci,
            setup.turn,
        ).len() > 0
    }
}

/// The moves among the first `k` of `moves` that join list `list`, in
/// order.
pub open spec fn list_prefix(
    fen: Seq<char>,
    setup: Setup,
    moves: Seq<Seq<char>>,
    list: int,
    k: int,
) -> Seq<Seq<char>>
    decreases k,
{
    if k <= 0 {
        Seq::empty()
    } else if joins(fen, setup, moves[k - 1], list) {
        list_prefix(fen, setup, moves, list, k - 1).push(moves[k - 1])
    } else {
        list_prefix(fen, setup, moves, list, k - 1)
    }
}

/// The moves of a scan list, with their annotations, are the legal moves
/// joining that list, in move generation order.
pub open spec fn list_matches(
    v: Seq<ThreatMove>,
    fen: Seq<char>,
    setup: Setup,
    moves: Seq<Seq<char>>,
    list: int,
    k: int,
) -> bool {
    &&& v.len() == list_prefix(fen, setup, moves, list, k).len()
    &&& forall|i: int|
        0 <= i < v.len() ==> annotates(
            #[trigger] v[i],
            fen,
            setup,
            list_prefix(fen, setup, moves, list, k)[i],
        )
}

/// The scan of the side to move of the position `fen` / `setup`.
pub open spec fn scan_matches(s: ThreatScan, fen: Seq<char>, setup: Setup) -> bool {
    let moves = legal_uci_list(fen);
    &&& forall|i: int| 0 <= i < moves.len() ==> annotatable(fen, #[trigger] moves[i])
    &&& s.side@ == spec_color_name(setup.turn)
    &&& list_matches(s.captures@, fen, setup, moves, 0, moves.len() as int)
    &&& list_matches(s.checks@, fen, setup, moves, 1, moves.len() as int)
    &&& list_matches(s.threats@, fen, setup, moves, 2, moves.len() as int)
}

impl ThreatMove {
    /// A field-by-field copy.
    pub fn duplicate(&self) -> (r: ThreatMove)
        ensures
            r.uci@ == self.uci@,
            r.san@ == self.san@,
            r.from@ == self.from@,
            r.to@ == self.to@,
            r.role@ == self.role@,
            r.captured.is_some() == self.captured.is_some(),
            r.captured matches Some(c) ==> self.captured matches Some(d) && c@ == d@,
            r.see == self.see,
            r.gives_check == self.gives_check,
            r.threatens@.len() == self.threatens@.len(),
            forall|i: int| 0 <= i < r.threatens@.len() ==> #[trigger] r.threatens@[i]@ == self.threatens@[i]@,
    {
        let mut threatens: Vec<String> = Vec::new();
        let mut i: usize = 0;
        while i < self.threatens.len()
            invariant
                i <= self.threatens@.len(),
                threatens@.len() == i,
                forall|k: int| 0 <= k < i ==> #[trigger] threatens@[k]@ == self.threatens@[k]@,
            decreases self.threatens.len() - i,
        {
            threatens.push(self.threatens[i].clone());
            i = i + 1;
        }
        ThreatMove {
            uci: self.uci.clone(),
            san: self.san.clone(),
            from: self.from.clone(),
            to: self.to.clone(),
            role: self.role.clone(),
            captured: match &self.captured {
                Some(c) => Some(c.clone()),
                None => None,
            },
            see: self.see,
            gives_check: self.gives_check,
            threatens,
        }
    }
}

/// Two annotations with the same content annotate the same move.
proof fn lemma_annotates_copy(t: ThreatMove, c: ThreatMove, fen: Seq<char>, setup: Setup, uci: Seq<char>)
    requires
        annotates(t, fen, setup, uci),
        c.uci@ == t.uci@,
        c.san@ == t.san@,
        c.from@ == t.from@,
        c.to@ == t.to@,
        c.role@ == t.role@,
        c.captured.is_some() == t.captured.is_some(),
        c.captured matches Some(x) ==> t.captured matches Some(y) && x@ == y@,
        c.see == t.see,
        c.gives_check == t.gives_check,
        c.threatens@.len() == t.threatens@.len(),
        forall|i: int| 0 <= i < c.threatens@.len() ==> #[trigger] c.threatens@[i]@ == t.threatens@[i]@,
    ensures
        annotates(c, fen, setup, uci),
{
    assert forall|i: int| 0 <= i < c.threatens@.len() implies #[trigger] c.threatens@[i]@ == square_text(
        threatened_squares(fen, uci, setup.turn)[i],
    ) by {
        assert(c.threatens@[i]@ == t.threatens@[i]@);
    }
}

/// Adding the next move to a list keeps the list matching.
proof fn lemma_list_step(
    v: Seq<ThreatMove>,
    w: Seq<ThreatMove>,
    fen: Seq<char>,
    setup: Setup,
    moves: Seq<Seq<char>>,
    list: int,
    k: int,
)
    requires
        0 <= k < moves.len(),
        list_matches(v, fen, setup, moves, list, k),
        joins(fen, setup, moves[k], list) ==> w.len() == v.len() + 1 && w.drop_last() == v
            && annotates(w.last(), fen, setup, moves[k]),
        !joins(fen, setup, moves[k], list) ==> w == v,
    ensures
        list_matches(w, fen, setup, moves, list, k + 1),
{
    if joins(fen, setup, moves[k], list) {
        let p = list_prefix(fen, setup, moves, list, k);
        assert(list_prefix(fen, setup, moves, list, k + 1) == p.push(moves[k]));
        assert forall|i: int| 0 <= i < w.len() implies annotates(
            #[trigger] w[i],
            fen,
            setup,
            list_prefix(fen, setup, moves, list, k + 1)[i],
        ) by {
            if i < v.len() {
                assert(w[i] == v[i]);
            }
        }
    }
}

/// Annotate the legal move `uci`; `None` when `shakmaty` does not describe
/// or play it.
fn annotate(position: &Position, uci: &str) -> (r: Option<ThreatMove>)
    ensures
        r is Some <==> annotatable(position.fen_text(), uci@),
        r matches Some(t) ==> annotates(t, position.fen_text(), position.spec_setup(), uci@),
{
    let fen = position.fen();
    let shape = match shape_of_move(fen, uci) {
        Some(m) => m,
        None => return None,
    };
    let (san, after) = match play_uci(fen, uci) {
        Ok(p) => p,
        Err(_) => return None,
    };
    let see_value = see(position, shape.from, shape.to);
    let gives_check = is_check(after.as_str());
    let next = match Position::from_fen(after.as_str()) {
        Ok(p) => p,
        Err(_) => vstd::pervasive::unreached(),
    };
    let mover = position.setup().turn;
    let squares = winning_captures_for(&next, mover);
    let mut threatens: Vec<String> = Vec::new();
    let mut i: usize = 0;
    while i < squares.len()
        invariant
            i <= squares@.len(),
            threatens@.len() == i,
            forall|k: int| 0 <= k < squares@.len() ==> #[trigger] squares@[k] < 64,
            forall|k: int|
                0 <= k < i ==> #[trigger] threatens@[k]@ == square_text(squares@[k] as int),
        decreases squares.len() - i,
    {
        threatens.push(square_name(squares[i]));
        i = i + 1;
    }
    let mut role = String::new();
    push_char(&mut role, role_letter(role_from_number(shape.role)));
    let captured = match shape.captured {
        Some(c) => {
            let mut s = String::new();
            push_char(&mut s, role_letter(role_from_number(c)));
            Some(s)
        },
        None => None,
    };
    Some(
        ThreatMove {
            uci: uci.to_owned(),
            san,
            from: square_name(shape.from),
            to: square_name(shape.to),
            role,
            captured,
            see: see_value,
            gives_check,
            threatens,
        },
    )
}

impl ThreatScan {
    /// Scan from the perspective of whoever is to move.
    pub fn from_position(position: &Position) -> (r: ThreatScan)
        ensures
            scan_matches(r, position.fen_text(), position.spec_setup()),
    {
        let fen = position.fen();
        let setup = position.setup();
        let moves = legal_ucis(fen);
        let ghost list = legal_uci_list(position.fen_text());
        let mut side = String::new();
        push_str(&mut side, color_name(setup.turn));
        let mut checks: Vec<ThreatMove> = Vec::new();
        let mut captures: Vec<ThreatMove> = Vec::new();
        let mut threats: Vec<ThreatMove> = Vec::new();
        let mut k: usize = 0;
        while k < moves.len()
            invariant
                k <= moves@.len(),
                moves@.len() == list.len(),
                list == legal_uci_list(position.fen_text()),
                forall|j: int| 0 <= j < moves@.len() ==> #[trigger] moves@[j]@ == list[j],
                list_matches(
                    captures@,
                    position.fen_text(),
                    position.spec_setup(),
                    list,
                    0,
                    k as int,
                ),
                list_matches(checks@, position.fen_text(), position.spec_setup(), list, 1, k as int),
                list_matches(
                    threats@,
                    position.fen_text(),
                    position.spec_setup(),
                    list,
                    2,
                    k as int,
                ),
            decreases moves.len() - k,
        {
            let ghost fen_t = position.fen_text();
            let ghost st = position.spec_setup();
            let ghost u = list[k as int];
            let ghost old_caps = captures@;
            let ghost old_checks = checks@;
            let ghost old_threats = threats@;
            match annotate(position, moves[k].as_str()) {
                Some(tm) => {
                    let mut classified = false;
                    if tm.captured.is_some() {
                        let c = tm.duplicate();
                        proof {
                            lemma_annotates_copy(tm, c, fen_t, st, u);
                        }
                        captures.push(c);
                        assert(captures@.drop_last() =~= old_caps);
                        classified = true;
                    }
                    if tm.gives_check {
                        let c = tm.duplicate();
                        proof {
                            lemma_annotates_copy(tm, c, fen_t, st, u);
                        }
                        checks.push(c);
                        assert(checks@.drop_last() =~= old_checks);
                        classified = true;
                    }
                    if !classified && tm.threatens.len() > 0 {
                        threats.push(tm);
                        assert(threats@.drop_last() =~= old_threats);
                    }
                },
                None => {},
            }
            proof {
                lemma_list_step(old_caps, captures@, fen_t, st, list, 0, k as int);
                lemma_list_step(old_checks, checks@, fen_t, st, list, 1, k as int);
                lemma_list_step(old_threats, threats@, fen_t, st, list, 2, k as int);
            }
            k = k + 1;
        }
        assert forall|i: int| 0 <= i < list.len() implies annotatable(
            position.fen_text(),
            #[trigger] list[i],
        ) by {
            assert(moves@[i]@ == list[i]);
        }
        ThreatScan { side, checks, captures, threats }
    }
}

/// The null-move FEN of the position `fen`: the FEN `shakmaty` writes,
/// with the other side to move and no en passant square (it belonged to
/// the side about to move); `None` when that FEN has fewer than six fields.
pub open spec fn spec_flip_fen(fen: Seq<char>) -> Option<Seq<char>> {
    let parts = spec_tokens(canonical_fen(fen));
    if parts.len() < 6 {
        None
    } else {
        let side = if parts[1] == "w"@ {
            "b"@
        } else {
            "w"@
        };
        Some(
            parts[0] + " "@ + side + " "@ + parts[2] + " - "@ + parts[4] + " "@ + parts[5],
        )
    }
}

/// Null-move the position: swap the side to move, clear the en passant
/// square, and read the result again. `None` when that is not a legal
/// position, which happens when the side to move is in check.
pub fn flipped(position: &Position) -> (r: Option<Position>)
    ensures
        match r {
            Some(p) => spec_flip_fen(position.fen_text()) matches Some(f) && p.fen_text() == f
                && fen_setup(f) == Some(p.spec_setup()),
            None => match spec_flip_fen(position.fen_text()) {
                Some(f) => fen_setup(f) is None,
                None => true,
            },
        },
{
    let canon = match normalize_fen(position.fen()) {
        Ok(s) => s,
        Err(_) => vstd::pervasive::unreached(),
    };
    let cs = chars_of(canon.as_str());
    let parts = tokens(&cs);
    if parts.len() < 6 {
        return None;
    }
    let mut fen = string_of(&parts[0]);
    push_str(&mut fen, " ");
    if same_chars(&parts[1], "w") {
        push_str(&mut fen, "b");
    } else {
        push_str(&mut fen, "w");
    }
    push_str(&mut fen, " ");
    let p2 = string_of(&parts[2]);
    push_str(&mut fen, p2.as_str());
    push_str(&mut fen, " - ");
    let p4 = string_of(&parts[4]);
    push_str(&mut fen, p4.as_str());
    push_str(&mut fen, " ");
    let p5 = string_of(&parts[5]);
    push_str(&mut fen, p5.as_str());
    match Position::from_fen(fen.as_str()) {
        Ok(p) => Some(p),
        Err(_) => None,
    }
}

impl ThreatScans {
    /// Scans of both sides: the side to move in `position`, and the
    /// opponent in the null-move-flipped position when that flip is legal.
    pub fn from_position(position: &Position) -> (r: ThreatScans)
        ensures
            scan_matches(r.mover, position.fen_text(), position.spec_setup()),
            match r.opponent {
                Some(s) => spec_flip_fen(position.fen_text()) matches Some(f) && fen_setup(f) matches Some(
                    st,
                ) && scan_matches(s, f, st),
                None => match spec_flip_fen(position.fen_text()) {
                    Some(f) => fen_setup(f) is None,
                    None => true,
                },
            },
    {
        let mover = ThreatScan::from_position(position);
        let opponent = match flipped(position) {
            Some(p) => Some(ThreatScan::from_position(&p)),
            None => None,
        };
        ThreatScans { mover, opponent }
    }
}

/// The UCI texts of a scan list, in order.
pub open spec fn ucis(v: Seq<ThreatMove>) -> Seq<Seq<char>> {
    v.map_values(|t: ThreatMove| t.uci@)
}

proof fn lemma_ucis_prefix(
    v: Seq<ThreatMove>,
    fen: Seq<char>,
    setup: Setup,
    moves: Seq<Seq<char>>,
    list: int,
    k: int,
)
    requires
        list_matches(v, fen, setup, moves, list, k),
    ensures
        ucis(v) == list_prefix(fen, setup, moves, list, k),
{
    let p = list_prefix(fen, setup, moves, list, k);
    assert forall|i: int| 0 <= i < v.len() implies #[trigger] ucis(v)[i] == p[i] by {
        assert(annotates(v[i], fen, setup, p[i]));
    }
    assert(ucis(v) =~= p);
}

proof fn lemma_prefix_members(
    fen: Seq<char>,
    setup: Setup,
    moves: Seq<Seq<char>>,
    list: int,
    k: int,
)
    requires
        0 <= k <= moves.len(),
    ensures
        forall|x: Seq<char>|
            #[trigger] list_prefix(fen, setup, moves, list, k).contains(x) <==> (moves.take(
                k,
            ).contains(x) && joins(fen, setup, x, list)),
    decreases k,
{
    broadcast use vstd::seq_lib::lemma_seq_contains_after_push;

    if k == 0 {
        assert forall|x: Seq<char>| !moves.take(0).contains(x) by {}
    } else {
        lemma_prefix_members(fen, setup, moves, list, k - 1);
        let prev = list_prefix(fen, setup, moves, list, k - 1);
        let m = moves[k - 1];
        assert(moves.take(k) =~= moves.take(k - 1).push(m));
        assert forall|x: Seq<char>|
            #[trigger] list_prefix(fen, setup, moves, list, k).contains(x) <==> (moves.take(
                k,
            ).contains(x) && joins(fen, setup, x, list)) by {
            assert(moves.take(k).contains(x) <==> (m == x || moves.take(k - 1).contains(x)));
            assert(prev.contains(x) <==> (moves.take(k - 1).contains(x) && joins(
                fen,
                setup,
                x,
                list,
            )));
            if joins(fen, setup, m, list) {
                assert(list_prefix(fen, setup, moves, list, k) == prev.push(m));
                assert(prev.push(m).contains(x) <==> (m == x || prev.contains(x)));
            } else {
                assert(list_prefix(fen, setup, moves, list, k) == prev);
            }
        }
    }
}

/// The scan sorts every legal move into its lists by what it does: a move
/// is in the captures exactly when it captures, in the checks exactly when
/// it gives check (a checking capture is in both), and in the threats
/// exactly when it does neither and leaves the mover winning material
/// somewhere; so no threat is also a capture or a check. Each list keeps
/// the order in which the moves are generated.
pub proof fn law_threat_scan_partition(s: ThreatScan, fen: Seq<char>, setup: Setup)
    requires
        scan_matches(s, fen, setup),
    ensures
        ({
            let moves = legal_uci_list(fen);
            &&& ucis(s.captures@) == list_prefix(fen, setup, moves, 0, moves.len() as int)
            &&& ucis(s.checks@) == list_prefix(fen, setup, moves, 1, moves.len() as int)
            &&& ucis(s.threats@) == list_prefix(fen, setup, moves, 2, moves.len() as int)
            &&& forall|x: Seq<char>|
                #[trigger] ucis(s.captures@).contains(x) <==> (moves.contains(x) && (move_shape(
                    fen,
                    x,
                ) matches Some(m) && m.captured is Some))
            &&& forall|x: Seq<char>|
                #[trigger] ucis(s.checks@).contains(x) <==> (moves.contains(x) && (uci_play(
                    fen,
                    x,
                ) matches Some((_, after)) && check_of(after)))
            &&& forall|x: Seq<char>|
                #[trigger] ucis(s.threats@).contains(x) <==> (moves.contains(x) && !(move_shape(
                    fen,
                    x,
                ) matches Some(m) && m.captured is Some) && !(uci_play(fen, x) matches Some(
                    (_, after),
                ) && check_of(after)) && threatened_squares(fen, x, setup.turn).len() > 0)
            &&& forall|i: int|
                0 <= i < s.captures@.len() ==> (#[trigger] s.captures@[i]).captured is Some
            &&& forall|i: int| 0 <= i < s.checks@.len() ==> (#[trigger] s.checks@[i]).gives_check
            &&& forall|i: int|
                0 <= i < s.threats@.len() ==> (#[trigger] s.threats@[i]).captured is None
                    && !s.threats@[i].gives_check && s.threats@[i].threatens@.len() > 0
            &&& forall|x: Seq<char>|
                #[trigger] ucis(s.threats@).contains(x) ==> !ucis(s.captures@).contains(x)
                    && !ucis(s.checks@).contains(x)
        }),
{
    let moves = legal_uci_list(fen);
    let n = moves.len() as int;
    lemma_ucis_prefix(s.captures@, fen, setup, moves, 0, n);
    lemma_ucis_prefix(s.checks@, fen, setup, moves, 1, n);
    lemma_ucis_prefix(s.threats@, fen, setup, moves, 2, n);
    lemma_prefix_members(fen, setup, moves, 0, n);
    lemma_prefix_members(fen, setup, moves, 1, n);
    lemma_prefix_members(fen, setup, moves, 2, n);
    assert(moves.take(n) =~= moves);
    assert forall|x: Seq<char>| moves.contains(x) implies annotatable(fen, x) by {
        let i = choose|i: int| 0 <= i < moves.len() && moves[i] == x;
        assert(annotatable(fen, moves[i]));
    }
    assert forall|i: int| 0 <= i < s.captures@.len() implies (#[trigger] s.captures@[i]).captured is Some by {
        let u = list_prefix(fen, setup, moves, 0, n)[i];
        assert(annotates(s.captures@[i], fen, setup, u));
        assert(list_prefix(fen, setup, moves, 0, n).contains(u));
    }
    assert forall|i: int| 0 <= i < s.checks@.len() implies (#[trigger] s.checks@[i]).gives_check by {
        let u = list_prefix(fen, setup, moves, 1, n)[i];
        assert(annotates(s.checks@[i], fen, setup, u));
        assert(list_prefix(fen, setup, moves, 1, n).contains(u));
    }
    assert forall|i: int| 0 <= i < s.threats@.len() implies (#[trigger] s.threats@[i]).captured is None
        && !s.threats@[i].gives_check && s.threats@[i].threatens@.len() > 0 by {
        let u = list_prefix(fen, setup, moves, 2, n)[i];
        assert(annotates(s.threats@[i], fen, setup, u));
        assert(list_prefix(fen, setup, moves, 2, n).contains(u));
    }
}

} // verus!
