//! The inspection reports of the interactive game: hanging pieces, the
//! attackers of a square or of every piece of a kind, and the SEE of a
//! capture on a square, each as the text the prompt prints.

use vstd::prelude::*;

use crate::analysis::{attack_table, AttackMap};
use crate::bitboard::{bit, contains, popcount};
use crate::position::{Board, Color, Piece, Position, Role};
use crate::see::{see_on_square, spec_see_on_square};
use crate::text::{
    chars_of, joined, push_char, push_decimal, push_plus_signed, push_str,
    plus_decimal, decimal, spec_trim, trim,
};
use crate::piece_fmt::{piece_letter, role_letter, spec_piece_letter, spec_role_letter};
use crate::threats::{square_name, square_text};

verus! {

/// "s" for any count but one.
pub open spec fn spec_pluralise(n: int) -> Seq<char> {
    if n == 1 {
        Seq::empty()
    } else {
        "s"@
    }
}

pub fn pluralise(n: u8) -> (r: &'static str)
    ensures
        r@ == spec_pluralise(n as int),
{
    proof {
        reveal_strlit("");
        reveal_strlit("s");
    }
    if n == 1 {
        ""
    } else {
        "s"
    }
}

/// The square named by two characters `a`..`h` then `1`..`8`.
pub open spec fn spec_parse_square(s: Seq<char>) -> Option<u8> {
    if s.len() == 2 && 'a' <= s[0] <= 'h' && '1' <= s[1] <= '8' {
        Some(((s[1] as int - '1' as int) * 8 + (s[0] as int - 'a' as int)) as u8)
    } else {
        None
    }
}

pub fn parse_square(s: &str) -> (r: Option<u8>)
    ensures
        r == spec_parse_square(s@),
        r matches Some(q) ==> q < 64,
{
    if s.unicode_len() != 2 {
        return None;
    }
    let f = s.get_char(0);
    let k = s.get_char(1);
    if !('a' <= f && f <= 'h') || !('1' <= k && k <= '8') {
        return None;
    }
    let file: u8 = (f as u32 - 97) as u8;
    let rank: u8 = (k as u32 - 49) as u8;
    Some(rank * 8 + file)
}

/// The piece a FEN letter names.
pub open spec fn letter_piece(ch: char) -> Option<Piece> {
    let role = if ch == 'K' || ch == 'k' {
        Some(Role::King)
    } else if ch == 'Q' || ch == 'q' {
        Some(Role::Queen)
    } else if ch == 'R' || ch == 'r' {
        Some(Role::Rook)
    } else if ch == 'B' || ch == 'b' {
        Some(Role::Bishop)
    } else if ch == 'N' || ch == 'n' {
        Some(Role::Knight)
    } else if ch == 'P' || ch == 'p' {
        Some(Role::Pawn)
    } else {
        None
    };
    match role {
        Some(r) => Some(Piece { color: if 'A' <= ch <= 'Z' {
            Color::White
        } else {
            Color::Black
        }, role: r }),
        None => None,
    }
}

fn piece_of_letter(ch: char) -> (r: Option<Piece>)
    ensures
        r == letter_piece(ch),
{
    let role = if ch == 'K' || ch == 'k' {
        Role::King
    } else if ch == 'Q' || ch == 'q' {
        Role::Queen
    } else if ch == 'R' || ch == 'r' {
        Role::Rook
    } else if ch == 'B' || ch == 'b' {
        Role::Bishop
    } else if ch == 'N' || ch == 'n' {
        Role::Knight
    } else if ch == 'P' || ch == 'p' {
        Role::Pawn
    } else {
        return None;
    };
    let color = if 'A' <= ch && ch <= 'Z' {
        Color::White
    } else {
        Color::Black
    };
    Some(Piece { color, role })
}

/// The squares below `n`, in order, that hold `piece`.
pub open spec fn squares_with(b: Board, piece: Piece, n: int) -> Seq<u8>
    decreases n,
{
    if n <= 0 {
        Seq::empty()
    } else if b.spec_piece_at(n - 1) == Some(piece) {
        squares_with(b, piece, n - 1).push((n - 1) as u8)
    } else {
        squares_with(b, piece, n - 1)
    }
}

/// What `attackers <arg>` inspects: the named square, or every square
/// holding the piece a single FEN letter names; `None` for anything else.
pub open spec fn spec_inspect_target(arg: Seq<char>, b: Board) -> Option<Seq<u8>> {
    let t = spec_trim(arg);
    match spec_parse_square(t) {
        Some(q) => Some(seq![q]),
        None => if t.len() == 1 {
            match letter_piece(t[0]) {
                Some(p) => Some(squares_with(b, p, 64)),
                None => None,
            }
        } else {
            None
        },
    }
}

pub fn parse_inspect_target(arg: &str, board: &Board) -> (r: Option<Vec<u8>>)
    ensures
        match r {
            Some(v) => spec_inspect_target(arg@, *board) == Some(v@),
            None => spec_inspect_target(arg@, *board) is None,
        },
        r matches Some(v) ==> forall|i: int| 0 <= i < v@.len() ==> v@[i] < 64,
{
    let t = trim(&chars_of(arg));
    let ts = crate::text::string_of(&t);
    if let Some(q) = parse_square(ts.as_str()) {
        let mut v: Vec<u8> = Vec::new();
        v.push(q);
        assert(v@ =~= seq![q]);
        return Some(v);
    }
    if t.len() != 1 {
        return None;
    }
    let needle = match piece_of_letter(t[0]) {
        Some(p) => p,
        None => return None,
    };
    let mut squares: Vec<u8> = Vec::new();
    let mut sq: u8 = 0;
    while sq < 64
        invariant
            sq <= 64,
            squares@ == squares_with(*board, needle, sq as int),
            forall|i: int| 0 <= i < squares@.len() ==> squares@[i] < sq,
        decreases 64 - sq,
    {
        if board.piece_at(sq) == Some(needle) {
            squares.push(sq);
        }
        sq = sq + 1;
    }
    Some(squares)
}

// ---------------------------------------------------------------------
// Attackers of a square.

/// How a source square is listed: the square for a pawn or an empty
/// square, else the piece's uppercase letter and the square.
pub open spec fn source_text(b: Board, sq: int) -> Seq<char> {
    match b.spec_piece_at(sq) {
        Some(p) => if p.role == Role::Pawn {
            square_text(sq)
        } else {
            seq![spec_role_letter(p.role)] + square_text(sq)
        },
        None => square_text(sq),
    }
}

/// The listings of the squares below `n` in `bb`, in square order.
pub open spec fn source_texts(b: Board, bb: u64, n: int) -> Seq<Seq<char>>
    decreases n,
{
    if n <= 0 {
        Seq::empty()
    } else if bit(bb, n - 1) {
        source_texts(b, bb, n - 1).push(source_text(b, n - 1))
    } else {
        source_texts(b, bb, n - 1)
    }
}

/// The pieces on the squares of `bb`, joined by ", "; a dash for none.
pub open spec fn spec_describe_sources(b: Board, bb: u64) -> Seq<char> {
    if bb == 0 {
        "—"@
    } else {
        joined(source_texts(b, bb, 64), ", "@)
    }
}

fn push_source(out: &mut String, board: &Board, sq: u8)
    requires
        sq < 64,
    ensures
        final(out)@ == old(out)@ + source_text(*board, sq as int),
{
    match board.piece_at(sq) {
        Some(p) => {
            if p.role != Role::Pawn {
                push_char(out, role_letter(p.role));
            }
        },
        None => {},
    }
    let name = square_name(sq);
    push_str(out, name.as_str());
    assert(out@ =~= old(out)@ + source_text(*board, sq as int));
}

pub fn describe_sources(board: &Board, bb: u64) -> (r: String)
    ensures
        r@ == spec_describe_sources(*board, bb),
{
    let mut out = String::new();
    if bb == 0 {
        push_str(&mut out, "—");
        return out;
    }
    let mut any = false;
    let mut sq: u8 = 0;
    while sq < 64
        invariant
            sq <= 64,
            any == (source_texts(*board, bb, sq as int).len() > 0),
            out@ == joined(source_texts(*board, bb, sq as int), ", "@),
        decreases 64 - sq,
    {
        if contains(bb, sq) {
            let ghost before = source_texts(*board, bb, sq as int);
            if any {
                push_str(&mut out, ", ");
            }
            any = true;
            push_source(&mut out, board, sq);
            proof {
                let after = source_texts(*board, bb, sq + 1);
                assert(after.drop_last() =~= before);
                if before.len() == 0 {
                    assert(joined(before, ", "@) =~= Seq::<char>::empty());
                }
                assert(out@ =~= joined(after, ", "@));
            }
        }
        sq = sq + 1;
    }
    out
}

/// " (X)" with the letter of the piece on `sq`; nothing for an empty
/// square.
pub open spec fn occupant_text(b: Board, sq: int) -> Seq<char> {
    match b.spec_piece_at(sq) {
        Some(p) => " ("@ + seq![spec_piece_letter(p)] + ")"@,
        None => Seq::empty(),
    }
}

fn push_occupant(out: &mut String, board: &Board, sq: u8)
    requires
        sq < 64,
    ensures
        final(out)@ == old(out)@ + occupant_text(*board, sq as int),
{
    match board.piece_at(sq) {
        Some(p) => {
            push_str(out, " (");
            push_char(out, piece_letter(p));
            push_str(out, ")");
        },
        None => {},
    }
    assert(out@ =~= old(out)@ + occupant_text(*board, sq as int));
}

/// A square's block of the `attackers` report: the square and its
/// occupant, then White's and Black's attackers.
pub open spec fn square_block(b: Board, sq: int) -> Seq<char> {
    square_text(sq) + occupant_text(b, sq) + ":\n"@ + "  White: "@ + spec_describe_sources(
        b,
        attack_table(b, Color::White)[sq],
    ) + "\n"@ + "  Black: "@ + spec_describe_sources(b, attack_table(b, Color::Black)[sq]) + "\n"@
}

fn push_square_block(out: &mut String, am: &AttackMap, board: &Board, sq: u8)
    requires
        sq < 64,
        am.table(Color::White) == attack_table(*board, Color::White),
        am.table(Color::Black) == attack_table(*board, Color::Black),
    ensures
        final(out)@ == old(out)@ + square_block(*board, sq as int),
{
    let name = square_name(sq);
    push_str(out, name.as_str());
    push_occupant(out, board, sq);
    push_str(out, ":\n");
    let white = describe_sources(board, am.attackers(sq, Color::White));
    let black = describe_sources(board, am.attackers(sq, Color::Black));
    push_str(out, "  White: ");
    push_str(out, white.as_str());
    push_str(out, "\n");
    push_str(out, "  Black: ");
    push_str(out, black.as_str());
    push_str(out, "\n");
    assert(out@ =~= old(out)@ + square_block(*board, sq as int));
}

pub open spec fn square_blocks(b: Board, squares: Seq<u8>, k: int) -> Seq<char>
    decreases k,
{
    if k <= 0 {
        Seq::empty()
    } else {
        square_blocks(b, squares, k - 1) + square_block(b, squares[k - 1] as int)
    }
}

/// The `attackers <arg>` report: a block per inspected square, or why
/// there is none.
pub open spec fn spec_attackers_report(b: Board, arg: Seq<char>) -> Seq<char> {
    match spec_inspect_target(arg, b) {
        Some(v) => if v.len() == 0 {
            "no pieces of that type on the board.\n"@
        } else {
            square_blocks(b, v, v.len() as int)
        },
        None => "unrecognised target '"@ + arg
            + "'. Use a square (e.g. e4) or a piece letter (K Q R B N P, lowercase for black).\n"@,
    }
}

pub fn attackers_report(position: &Position, arg: &str) -> (r: String)
    ensures
        r@ == spec_attackers_report(position.spec_setup().board, arg@),
{
    let board = &position.setup().board;
    let am = AttackMap::from_position(position);
    let mut out = String::new();
    match parse_inspect_target(arg, board) {
        Some(targets) => {
            if targets.len() == 0 {
                push_str(&mut out, "no pieces of that type on the board.\n");
                return out;
            }
            let mut i: usize = 0;
            while i < targets.len()
                invariant
                    i <= targets@.len(),
                    forall|j: int| 0 <= j < targets@.len() ==> targets@[j] < 64,
                    am.table(Color::White) == attack_table(*board, Color::White),
                    am.table(Color::Black) == attack_table(*board, Color::Black),
                    out@ == square_blocks(*board, targets@, i as int),
                decreases targets.len() - i,
            {
                push_square_block(&mut out, &am, board, targets[i]);
                i = i + 1;
            }
        },
        None => {
            push_str(&mut out, "unrecognised target '");
            push_str(&mut out, arg);
            push_str(
                &mut out,
                "'. Use a square (e.g. e4) or a piece letter (K Q R B N P, lowercase for black).\n",
            );
        },
    }
    out
}

// ---------------------------------------------------------------------
// Hanging pieces.

/// Whether the piece on `sq` is hanging: a non-king piece attacked by
/// more enemy pieces than it is defended by its own.
pub open spec fn hanging_at(b: Board, sq: int) -> bool {
    match b.spec_piece_at(sq) {
        None => false,
        Some(p) => p.role != Role::King && popcount(attack_table(b, p.color.spec_other())[sq])
            > popcount(attack_table(b, p.color)[sq]),
    }
}

/// The hanging squares below `n`, in order.
pub open spec fn hanging_squares(b: Board, n: int) -> Seq<int>
    decreases n,
{
    if n <= 0 {
        Seq::empty()
    } else if hanging_at(b, n - 1) {
        hanging_squares(b, n - 1).push(n - 1)
    } else {
        hanging_squares(b, n - 1)
    }
}

/// "3 attackers", "1 defender".
pub open spec fn count_text(n: nat, noun: Seq<char>) -> Seq<char> {
    decimal(n) + noun + spec_pluralise(n as int)
}

pub open spec fn hanging_line(b: Board, sq: int) -> Seq<char> {
    let p = b.spec_piece_at(sq).unwrap();
    let own = popcount(attack_table(b, p.color)[sq]);
    let foe = popcount(attack_table(b, p.color.spec_other())[sq]);
    "  "@ + square_text(sq) + " "@ + seq![spec_piece_letter(p)] + " — "@ + count_text(
        foe,
        " attacker"@,
    ) + " vs "@ + count_text(own, " defender"@) + "\n"@
}

pub open spec fn hanging_lines(b: Board, squares: Seq<int>, k: int) -> Seq<char>
    decreases k,
{
    if k <= 0 {
        Seq::empty()
    } else {
        hanging_lines(b, squares, k - 1) + hanging_line(b, squares[k - 1])
    }
}

/// The `hanging` report: every hanging piece with its attacker and
/// defender counts, in square order.
pub open spec fn spec_hanging_report(b: Board) -> Seq<char> {
    let hits = hanging_squares(b, 64);
    if hits.len() == 0 {
        "no hanging pieces.\n"@
    } else {
        "hanging pieces ("@ + decimal(hits.len()) + "):\n"@ + hanging_lines(b, hits, hits.len() as int)
    }
}

fn push_count(out: &mut String, n: u8, noun: &str)
    ensures
        final(out)@ == old(out)@ + count_text(n as nat, noun@),
{
    push_decimal(out, n as u64);
    push_str(out, noun);
    push_str(out, pluralise(n));
    assert(out@ =~= old(out)@ + count_text(n as nat, noun@));
}

fn push_hanging_line(out: &mut String, am: &AttackMap, board: &Board, sq: u8)
    requires
        sq < 64,
        hanging_at(*board, sq as int),
        am.table(Color::White) == attack_table(*board, Color::White),
        am.table(Color::Black) == attack_table(*board, Color::Black),
    ensures
        final(out)@ == old(out)@ + hanging_line(*board, sq as int),
{
    let piece = match board.piece_at(sq) {
        Some(p) => p,
        None => {
            assert(false);
            return;
        },
    };
    let own = am.count(sq, piece.color);
    let foe = am.count(sq, piece.color.other());
    let name = square_name(sq);
    push_str(out, "  ");
    push_str(out, name.as_str());
    push_str(out, " ");
    push_char(out, piece_letter(piece));
    push_str(out, " — ");
    let ghost a = out@;
    push_count(out, foe, " attacker");
    push_str(out, " vs ");
    push_count(out, own, " defender");
    push_str(out, "\n");
    assert(out@ =~= old(out)@ + hanging_line(*board, sq as int));
}

pub fn hanging_report(position: &Position) -> (r: String)
    ensures
        r@ == spec_hanging_report(position.spec_setup().board),
{
    let board = &position.setup().board;
    let am = AttackMap::from_position(position);
    let mut hits: Vec<u8> = Vec::new();
    let mut sq: u8 = 0;
    while sq < 64
        invariant
            sq <= 64,
            am.table(Color::White) == attack_table(*board, Color::White),
            am.table(Color::Black) == attack_table(*board, Color::Black),
            hits@.len() == hanging_squares(*board, sq as int).len(),
            forall|i: int|
                0 <= i < hits@.len() ==> hits@[i] as int == hanging_squares(*board, sq as int)[i],
            forall|i: int| 0 <= i < hits@.len() ==> hits@[i] < sq,
        decreases 64 - sq,
    {
        if am.is_hanging(board, sq) {
            hits.push(sq);
        }
        sq = sq + 1;
    }
    let ghost all = hanging_squares(*board, 64);
    let mut out = String::new();
    if hits.len() == 0 {
        push_str(&mut out, "no hanging pieces.\n");
        return out;
    }
    push_str(&mut out, "hanging pieces (");
    push_decimal(&mut out, hits.len() as u64);
    push_str(&mut out, "):\n");
    let ghost head = out@;
    let mut i: usize = 0;
    while i < hits.len()
        invariant
            i <= hits@.len(),
            hits@.len() == all.len(),
            all == hanging_squares(*board, 64),
            forall|j: int| 0 <= j < hits@.len() ==> hits@[j] as int == all[j],
            forall|j: int| 0 <= j < hits@.len() ==> hits@[j] < 64,
            am.table(Color::White) == attack_table(*board, Color::White),
            am.table(Color::Black) == attack_table(*board, Color::Black),
            out@ == head + hanging_lines(*board, all, i as int),
        decreases hits.len() - i,
    {
        proof {
            lemma_hanging_squares_hang(*board, 64, i as int);
        }
        push_hanging_line(&mut out, &am, board, hits[i]);
        i = i + 1;
        assert(out@ =~= head + hanging_lines(*board, all, i as int));
    }
    out
}

/// Every square listed as hanging is hanging.
proof fn lemma_hanging_squares_hang(b: Board, n: int, i: int)
    requires
        0 <= i < hanging_squares(b, n).len(),
    ensures
        hanging_at(b, hanging_squares(b, n)[i]),
    decreases n,
{
    if n > 0 {
        if hanging_at(b, n - 1) {
            if i < hanging_squares(b, n - 1).len() {
                lemma_hanging_squares_hang(b, n - 1, i);
            }
        } else {
            lemma_hanging_squares_hang(b, n - 1, i);
        }
    }
}

// ---------------------------------------------------------------------
// SEE on a square.

pub open spec fn side_see_line(setup: crate::position::Setup, sq: int, side: Color) -> Seq<char> {
    "  "@ + (if side == Color::White {
        "White"@
    } else {
        "Black"@
    }) + match spec_see_on_square(setup, sq, side) {
        Some(v) => ": "@ + plus_decimal(v) + " cp\n"@,
        None => ": no attacker\n"@,
    }
}

/// The `see <arg>` report: for an occupied square, each side's SEE of
/// capturing there (or that it has no attacker).
pub open spec fn spec_see_report(setup: crate::position::Setup, arg: Seq<char>) -> Seq<char> {
    match spec_parse_square(arg) {
        None => "unrecognised square '"@ + arg + "'. Try e.g. `see e5`.\n"@,
        Some(q) => {
            let sq = q as int;
            square_text(sq) + occupant_text(setup.board, sq) + ":\n"@ + if setup.board.spec_piece_at(
                sq,
            ) is None {
                "  (empty — SEE is only meaningful on occupied squares)\n"@
            } else {
                side_see_line(setup, sq, Color::White) + side_see_line(setup, sq, Color::Black)
            }
        },
    }
}

fn push_side_see(out: &mut String, position: &Position, sq: u8, side: Color)
    requires
        sq < 64,
    ensures
        final(out)@ == old(out)@ + side_see_line(position.spec_setup(), sq as int, side),
{
    push_str(out, "  ");
    if side.is_white() {
        push_str(out, "White");
    } else {
        push_str(out, "Black");
    }
    match see_on_square(position, sq, side) {
        Some(v) => {
            push_str(out, ": ");
            push_plus_signed(out, v as i64);
            push_str(out, " cp\n");
        },
        None => push_str(out, ": no attacker\n"),
    }
    assert(out@ =~= old(out)@ + side_see_line(position.spec_setup(), sq as int, side));
}

pub fn see_report(position: &Position, arg: &str) -> (r: String)
    ensures
        r@ == spec_see_report(position.spec_setup(), arg@),
{
    let mut out = String::new();
    let sq = match parse_square(arg) {
        Some(q) => q,
        None => {
            push_str(&mut out, "unrecognised square '");
            push_str(&mut out, arg);
            push_str(&mut out, "'. Try e.g. `see e5`.\n");
            return out;
        },
    };
    let board = &position.setup().board;
    let name = square_name(sq);
    push_str(&mut out, name.as_str());
    push_occupant(&mut out, board, sq);
    push_str(&mut out, ":\n");
    if board.piece_at(sq).is_none() {
        push_str(&mut out, "  (empty — SEE is only meaningful on occupied squares)\n");
        return out;
    }
    push_side_see(&mut out, position, sq, Color::White);
    push_side_see(&mut out, position, sq, Color::Black);
    out
}

} // verus!
