//! A chess position as plain values: one bitboard per role and per colour,
//! the side to move and the legal en passant square. Positions are read
//! from FEN by `shakmaty`.

use vstd::prelude::*;

use crate::bitboard::{bit, contains};
use shakmaty::fen::Fen;
use shakmaty::Position as _;
use shakmaty::{CastlingMode, Chess, EnPassantMode};

verus! {

#[derive(Debug, Clone, Copy, PartialEq, Eq, Structural)]
pub enum Color {
    White,
    Black,
}

#[derive(Debug, Clone, Copy, PartialEq, Eq, Structural)]
pub enum Role {
    Pawn,
    Knight,
    Bishop,
    Rook,
    Queen,
    King,
}

#[derive(Debug, Clone, Copy, PartialEq, Eq, Structural)]
pub struct Piece {
    pub color: Color,
    pub role: Role,
}

impl Color {
    pub open spec fn spec_other(self) -> Color {
        match self {
            Color::White => Color::Black,
            Color::Black => Color::White,
        }
    }

    /// The opposing colour.
    #[verifier::when_used_as_spec(spec_other)]
    pub fn other(self) -> (r: Color)
        ensures
            r == self.spec_other(),
    {
        match self {
            Color::White => Color::Black,
            Color::Black => Color::White,
        }
    }

    pub fn is_white(self) -> (r: bool)
        ensures
            r == (self == Color::White),
    {
        match self {
            Color::White => true,
            Color::Black => false,
        }
    }
}

/// Piece placement: one set of squares per role and per colour.
#[derive(Debug, Clone, Copy, PartialEq, Eq, Structural)]
pub struct Board {
    pub pawns: u64,
    pub knights: u64,
    pub bishops: u64,
    pub rooks: u64,
    pub queens: u64,
    pub kings: u64,
    pub white: u64,
    pub black: u64,
}

impl Board {
    pub open spec fn spec_by_color(&self, color: Color) -> u64 {
        match color {
            Color::White => self.white,
            Color::Black => self.black,
        }
    }

    pub open spec fn spec_occupied(&self) -> u64 {
        self.white | self.black
    }

    /// Role of the piece on `sq`, if any.
    pub open spec fn role_at(self, sq: int) -> Option<Role> {
        if bit(self.pawns, sq) {
            Some(Role::Pawn)
        } else if bit(self.knights, sq) {
            Some(Role::Knight)
        } else if bit(self.bishops, sq) {
            Some(Role::Bishop)
        } else if bit(self.rooks, sq) {
            Some(Role::Rook)
        } else if bit(self.queens, sq) {
            Some(Role::Queen)
        } else if bit(self.kings, sq) {
            Some(Role::King)
        } else {
            None
        }
    }

    /// The piece on `sq`, if any.
    pub open spec fn spec_piece_at(self, sq: int) -> Option<Piece> {
        match self.role_at(sq) {
            Some(role) => Some(
                Piece { color: if bit(self.white, sq) {
                    Color::White
                } else {
                    Color::Black
                }, role },
            ),
            None => None,
        }
    }

    #[verifier::when_used_as_spec(spec_by_color)]
    pub fn by_color(&self, color: Color) -> (r: u64)
        ensures
            r == self.spec_by_color(color),
    {
        match color {
            Color::White => self.white,
            Color::Black => self.black,
        }
    }

    #[verifier::when_used_as_spec(spec_occupied)]
    pub fn occupied(&self) -> (r: u64)
        ensures
            r == self.spec_occupied(),
    {
        self.white | self.black
    }

    /// The piece on `sq`, if any.
    pub fn piece_at(&self, sq: u8) -> (r: Option<Piece>)
        requires
            sq < 64,
        ensures
            r == self.spec_piece_at(sq as int),
    {
        let role = if contains(self.pawns, sq) {
            Role::Pawn
        } else if contains(self.knights, sq) {
            Role::Knight
        } else if contains(self.bishops, sq) {
            Role::Bishop
        } else if contains(self.rooks, sq) {
            Role::Rook
        } else if contains(self.queens, sq) {
            Role::Queen
        } else if contains(self.kings, sq) {
            Role::King
        } else {
            return None;
        };
        let color = if contains(self.white, sq) {
            Color::White
        } else {
            Color::Black
        };
        Some(Piece { color, role })
    }
}

/// What the analysis reads of a position: placement, side to move and the
/// en passant target square when an en passant capture is legal.
#[derive(Debug, Clone, Copy, PartialEq, Eq, Structural)]
pub struct Setup {
    pub board: Board,
    pub turn: Color,
    pub ep_square: Option<u8>,
}

/// The setup that `shakmaty` reads from a FEN text under standard castling
/// rules; `None` when the text is not a FEN of a legal position.
pub uninterp spec fn fen_setup(fen: Seq<char>) -> Option<Setup>;

/// Reads a FEN with `shakmaty` (`Fen::from_str`, then
/// `Fen::into_position::<Chess>` in standard castling mode) and converts
/// the resulting position to plain values. Claims that the result is the
/// named `fen_setup` of the text, that squares are below 64, and that a
/// refusal happens exactly when `fen_setup` is `None`; the error text is
/// shakmaty's message and is not described.
#[verifier::external_body]
pub(crate) fn parse_setup(fen: &str) -> (r: Result<Setup, String>)
    ensures
        match r {
            Ok(s) => fen_setup(fen@) == Some(s) && (s.ep_square matches Some(e) ==> e < 64),
            Err(_) => fen_setup(fen@).is_none(),
        },
{
    let pos: Chess = fen.parse::<Fen>().map_err(|e| e.to_string())?
        .into_position(CastlingMode::Standard).map_err(|e| e.to_string())?;
    let (r, c) = pos.board().clone().into_bitboards();
    let board = Board { pawns: r.pawn.0, knights: r.knight.0, bishops: r.bishop.0, rooks: r.rook.0,
        queens: r.queen.0, kings: r.king.0, white: c.white.0, black: c.black.0 };
    let turn = if pos.turn().is_white() { Color::White } else { Color::Black };
    Ok(Setup { board, turn, ep_square: pos.ep_square(EnPassantMode::Legal).map(|s| s as u8) })
}

/// A position read from FEN: the text it came from and what the analysis
/// reads of it.
#[derive(Debug)]
pub struct Position {
    fen: String,
    setup: Setup,
}

impl Position {
    #[verifier::type_invariant]
    spec fn inv(self) -> bool {
        &&& fen_setup(self.fen@) == Some(self.setup)
        &&& self.setup.ep_square matches Some(e) ==> e < 64
    }

    pub closed spec fn spec_setup(self) -> Setup {
        self.setup
    }

    pub closed spec fn fen_text(self) -> Seq<char> {
        self.fen@
    }

    /// Read a position from FEN; refused exactly when the text is not the
    /// FEN of a legal position.
    pub fn from_fen(fen: &str) -> (r: Result<Position, String>)
        ensures
            r is Err <==> fen_setup(fen@) is None,
            r matches Ok(p) ==> p.fen_text() == fen@ && fen_setup(fen@) == Some(p.spec_setup()),
    {
        match parse_setup(fen) {
            Ok(setup) => Ok(Position { fen: fen.to_owned(), setup }),
            Err(e) => Err(e),
        }
    }

    pub fn clone(&self) -> (r: Position)
        ensures
            r.spec_setup() == self.spec_setup(),
            r.fen_text() == self.fen_text(),
    {
        proof {
            use_type_invariant(self);
        }
        Position { fen: self.fen.clone(), setup: self.setup }
    }

    pub fn setup(&self) -> (r: &Setup)
        ensures
            *r == self.spec_setup(),
            fen_setup(self.fen_text()) == Some(*r),
            r.ep_square matches Some(e) ==> e < 64,
    {
        proof {
            use_type_invariant(self);
        }
        &self.setup
    }

    pub fn fen(&self) -> (r: &str)
        ensures
            r@ == self.fen_text(),
            fen_setup(r@) == Some(self.spec_setup()),
    {
        proof {
            use_type_invariant(self);
        }
        self.fen.as_str()
    }
}

} // verus!
