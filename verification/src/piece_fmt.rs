//! Piece, square and colour labels of the reports: `Nf3` / `qe6` (the
//! case of the letter gives the colour), `white`, `knight`.

use vstd::prelude::*;

use crate::position::{Color, Piece, Role};
use crate::text::push_char;
use crate::threats::{square_name, square_text};

verus! {

/// Uppercase letter of a role.
pub open spec fn spec_role_letter(r: Role) -> char {
    match r {
        Role::Pawn => 'P',
        Role::Knight => 'N',
        Role::Bishop => 'B',
        Role::Rook => 'R',
        Role::Queen => 'Q',
        Role::King => 'K',
    }
}

pub fn role_letter(r: Role) -> (c: char)
    ensures
        c == spec_role_letter(r),
{
    match r {
        Role::Pawn => 'P',
        Role::Knight => 'N',
        Role::Bishop => 'B',
        Role::Rook => 'R',
        Role::Queen => 'Q',
        Role::King => 'K',
    }
}

/// A piece's FEN letter: uppercase for White, lowercase for Black.
pub open spec fn spec_piece_letter(p: Piece) -> char {
    if p.color == Color::White {
        spec_role_letter(p.role)
    } else {
        (spec_role_letter(p.role) as u32 + 32) as char
    }
}

pub fn piece_letter(p: Piece) -> (c: char)
    ensures
        c == spec_piece_letter(p),
{
    let ch = role_letter(p.role);
    if p.color == Color::White {
        ch
    } else {
        ((ch as u8) + 32) as char
    }
}

/// A piece and its square, e.g. "Nf3" or "qe6".
pub open spec fn spec_piece_label(p: Piece, sq: int) -> Seq<char> {
    seq![spec_piece_letter(p)] + square_text(sq)
}

pub fn piece_label(piece: Piece, sq: u8) -> (r: String)
    requires
        sq < 64,
    ensures
        r@ == spec_piece_label(piece, sq as int),
{
    let mut out = String::new();
    push_char(&mut out, piece_letter(piece));
    let name = square_name(sq);
    crate::text::push_str(&mut out, name.as_str());
    assert(out@ =~= spec_piece_label(piece, sq as int));
    out
}

/// Capitalised colour name.
pub open spec fn spec_color_name(c: Color) -> Seq<char> {
    match c {
        Color::White => "White"@,
        Color::Black => "Black"@,
    }
}

pub fn color_name(c: Color) -> (r: &'static str)
    ensures
        r@ == spec_color_name(c),
{
    match c {
        Color::White => "White",
        Color::Black => "Black",
    }
}

/// Lowercase name of a role.
pub open spec fn spec_piece_type_name(r: Role) -> Seq<char> {
    match r {
        Role::King => "king"@,
        Role::Queen => "queen"@,
        Role::Rook => "rook"@,
        Role::Bishop => "bishop"@,
        Role::Knight => "knight"@,
        Role::Pawn => "pawn"@,
    }
}

pub fn piece_type_name(r: Role) -> (n: &'static str)
    ensures
        n@ == spec_piece_type_name(r),
{
    match r {
        Role::King => "king",
        Role::Queen => "queen",
        Role::Rook => "rook",
        Role::Bishop => "bishop",
        Role::Knight => "knight",
        Role::Pawn => "pawn",
    }
}

} // verus!
