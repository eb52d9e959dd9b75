//! Retrospective teaching: the lines that narrate how a move changed
//! castling rights, king safety, mobility, pawn structure and piece
//! placement, each read off the evaluation terms before and after the
//! move.

pub mod castling_narration;
pub mod king_safety_narration;
pub mod mobility_narration;
pub mod pawn_structure_narration;
pub mod pieces_positional_narration;

use vstd::prelude::*;

use crate::text::{decimal, joined, push_char, push_decimal, push_joined_strs, push_str, str_texts};

verus! {

/// Configuration for a single retrospective pass.
#[derive(Debug, Clone, Copy)]
pub struct RetrospectiveConfig {
    pub max_depth: u32,
    pub max_time_ms: Option<u64>,
    /// Narrate a best move in full instead of with a one-line headline.
    pub explain_best: bool,
}

/// An evaluation term's value in the middlegame and in the endgame,
/// in engine centipawns.
#[derive(Debug, Clone, Copy, PartialEq, Eq, Structural)]
pub struct Score {
    pub mg: i32,
    pub eg: i32,
}

impl Score {
    pub fn new(mg: i32, eg: i32) -> (r: Score)
        ensures
            r.mg == mg && r.eg == eg,
    {
        Score { mg, eg }
    }

    pub fn zero() -> (r: Score)
        ensures
            r.mg == 0 && r.eg == 0,
    {
        Score { mg: 0, eg: 0 }
    }
}

/// `x` fits in an `i32`.
pub open spec fn fits_i32(x: int) -> bool {
    i32::MIN <= x <= i32::MAX
}

pub open spec fn abs(x: int) -> int {
    if x < 0 {
        -x
    } else {
        x
    }
}

/// Two decimal digits of `n < 100`.
pub open spec fn two_digits(n: int) -> Seq<char> {
    seq![('0' as int + n / 10) as char, ('0' as int + n % 10) as char]
}

/// Centipawns as signed pawns with two decimals: 80 is "+0.80", -125 is
/// "-1.25".
pub open spec fn pawns_text(v: int) -> Seq<char> {
    (if v < 0 {
        "-"@
    } else {
        "+"@
    }) + decimal((abs(v) / 100) as nat) + "."@ + two_digits(abs(v) % 100)
}

pub fn format_shelter_pawns(v: i32) -> (r: String)
    ensures
        r@ == pawns_text(v as int),
{
    let a: u64 = if v < 0 {
        (-(v as i64)) as u64
    } else {
        v as u64
    };
    let mut out = String::new();
    if v < 0 {
        push_str(&mut out, "-");
    } else {
        push_str(&mut out, "+");
    }
    push_decimal(&mut out, a / 100);
    push_str(&mut out, ".");
    let frac = a % 100;
    push_char(&mut out, (48u8 + (frac / 10) as u8) as char);
    push_char(&mut out, (48u8 + (frac % 10) as u8) as char);
    assert(out@ =~= pawns_text(v as int));
    out
}

/// A narration line as the report prints it: indented under the
/// headline, then a newline.
pub open spec fn indented(line: Seq<char>) -> Seq<char> {
    "                "@ + line + "\n"@
}

/// The indented line of `line`, when there is one.
pub open spec fn opt_line(line: Option<Seq<char>>) -> Seq<char> {
    match line {
        Some(l) => indented(l),
        None => Seq::empty(),
    }
}

pub fn push_indented(out: &mut String, line: &str)
    ensures
        final(out)@ == old(out)@ + indented(line@),
{
    push_str(out, "                ");
    push_str(out, line);
    push_str(out, "\n");
    assert(out@ =~= old(out)@ + indented(line@));
}

/// `head` followed by the clauses joined by ", " and a full stop; `None`
/// when there is no clause.
pub open spec fn clause_line(head: Seq<char>, clauses: Seq<Seq<char>>) -> Option<Seq<char>> {
    if clauses.len() == 0 {
        None
    } else {
        Some(head + joined(clauses, ", "@) + "."@)
    }
}

pub fn line_of(head: &str, clauses: &Vec<&'static str>) -> (r: Option<String>)
    ensures
        match r {
            Some(l) => clause_line(head@, str_texts(clauses@)) == Some(l@),
            None => clause_line(head@, str_texts(clauses@)) is None,
        },
{
    if clauses.len() == 0 {
        return None;
    }
    let mut out = String::new();
    push_str(&mut out, head);
    push_joined_strs(&mut out, clauses, ", ");
    push_str(&mut out, ".");
    Some(out)
}

/// `a`, or else `b`.
pub open spec fn first_of(a: Option<Seq<char>>, b: Option<Seq<char>>) -> Option<Seq<char>> {
    if a is Some {
        a
    } else {
        b
    }
}

} // verus!
