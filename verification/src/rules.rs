//! The rules of chess as `shakmaty` implements them, behind trusted
//! wrappers keyed by FEN text: legal moves, playing a move, SAN, game
//! outcome. Each wrapper reads its FEN afresh; a text that is not the FEN
//! of a legal position yields no moves and no outcome.

use vstd::prelude::*;

use shakmaty::fen::Fen;
use shakmaty::san::{San, SanPlus};
use shakmaty::uci::UciMove;
use shakmaty::Position as _;
use shakmaty::{CastlingMode, Chess, EnPassantMode, KnownOutcome, Outcome};

use crate::position::{fen_setup, Color, Role};

verus! {

/// The FEN that `shakmaty` writes (`Fen::from_position`, legal en passant
/// squares only) for the position read from `fen`.
pub uninterp spec fn canonical_fen(fen: Seq<char>) -> Seq<char>;

/// Legal moves of the position read from `fen`, in `shakmaty`'s move
/// generation order, written as UCI.
pub uninterp spec fn legal_uci_list(fen: Seq<char>) -> Seq<Seq<char>>;

/// Legal moves of the position read from `fen`, in the same order, written
/// as SAN with check suffixes.
pub uninterp spec fn legal_san_list(fen: Seq<char>) -> Seq<Seq<char>>;

/// The text is a syntactically valid UCI move (`UciMove::from_str`).
pub uninterp spec fn uci_syntax_ok(uci: Seq<char>) -> bool;

/// Playing the UCI move `uci` in the position read from `fen`: its SAN with
/// check suffix and the FEN of the resulting position; `None` when the
/// FEN does not read or the move is not legal there.
pub uninterp spec fn uci_play(fen: Seq<char>, uci: Seq<char>) -> Option<(Seq<char>, Seq<char>)>;

/// The UCI text of the legal move the SAN text `san` denotes in the
/// position read from `fen`, if any.
pub uninterp spec fn san_move(fen: Seq<char>, san: Seq<char>) -> Option<Seq<char>>;

/// The game outcome of the position read from `fen` (`Position::outcome`):
/// `None` while the game goes on, `Some(None)` for a draw, `Some(Some(c))`
/// when `c` has won.
pub uninterp spec fn outcome_of(fen: Seq<char>) -> Option<Option<Color>>;

/// `Position::is_stalemate` of the position read from `fen`.
pub uninterp spec fn stalemate_of(fen: Seq<char>) -> bool;

/// `Position::is_insufficient_material` of the position read from `fen`.
pub uninterp spec fn insufficient_material_of(fen: Seq<char>) -> bool;

/// `Position::is_check` of the position read from `fen`.
pub uninterp spec fn check_of(fen: Seq<char>) -> bool;

/// The squares, role and captured role of the legal UCI move `uci` in the
/// position read from `fen`.
pub uninterp spec fn move_shape(fen: Seq<char>, uci: Seq<char>) -> Option<MoveShape>;

/// Plain description of a move: from and to squares (0..64), and the
/// numbers (1 = pawn .. 6 = king, as `shakmaty` numbers roles) of the
/// moving role and of the role it captures, if any.
#[derive(Debug, Clone, Copy, PartialEq, Eq, Structural)]
pub struct MoveShape {
    pub from: u8,
    pub to: u8,
    pub role: u8,
    pub captured: Option<u8>,
}

/// The role with the given number (1 = pawn .. 6 = king).
pub open spec fn spec_role_from_number(n: u8) -> Role {
    if n <= 1 {
        Role::Pawn
    } else if n == 2 {
        Role::Knight
    } else if n == 3 {
        Role::Bishop
    } else if n == 4 {
        Role::Rook
    } else if n == 5 {
        Role::Queen
    } else {
        Role::King
    }
}

pub fn role_from_number(n: u8) -> (r: Role)
    ensures
        r == spec_role_from_number(n),
{
    if n <= 1 {
        Role::Pawn
    } else if n == 2 {
        Role::Knight
    } else if n == 3 {
        Role::Bishop
    } else if n == 4 {
        Role::Rook
    } else if n == 5 {
        Role::Queen
    } else {
        Role::King
    }
}

/// Reads `fen` and writes it back with `Fen::from_position`; claims the
/// result is the named `canonical_fen`, that it is refused exactly when
/// `fen_setup` is `None`, and that the written FEN reads back to the same
/// position, so that writing it once more gives the same text. The error
/// text is shakmaty's message and is not described.
#[verifier::external_body]
pub(crate) fn normalize_fen(fen: &str) -> (r: Result<String, String>)
    ensures
        match r {
            Ok(s) => {
                &&& s@ == canonical_fen(fen@)
                &&& fen_setup(fen@) is Some
                &&& fen_setup(s@) is Some
                &&& canonical_fen(s@) == s@
            },
            Err(_) => fen_setup(fen@) is None,
        },
{
    let pos: Chess = fen.parse::<Fen>().map_err(|e| e.to_string())?
        .into_position(CastlingMode::Standard).map_err(|e| e.to_string())?;
    Ok(Fen::from_position(&pos, EnPassantMode::Legal).to_string())
}

/// The FEN text of the standard starting position.
pub open spec fn start_fen_text() -> Seq<char> {
    "rnbqkbnr/pppppppp/8/8/8/8/PPPPPPPP/RNBQKBNR w KQkq - 0 1"@
}

/// The FEN of the standard starting position (`Chess::default` written by
/// `Fen::from_position`): the standard start text, which reads back to the
/// same position, so that writing it again gives the same text.
#[verifier::external_body]
pub(crate) fn start_fen() -> (r: String)
    ensures
        r@ == start_fen_text(),
        fen_setup(r@) is Some,
        canonical_fen(r@) == r@,
{
    Fen::from_position(&Chess::default(), EnPassantMode::Legal).to_string()
}

/// `Position::legal_moves` as UCI texts (`Move::to_uci`, standard castling
/// notation). Claims the list is the named `legal_uci_list`, and that each
/// listed move reads back as that legal move (`UciMove::to_move` turns the
/// text of a legal move, castling included, into the same move), so that
/// playing it and describing its squares both succeed.
#[verifier::external_body]
pub(crate) fn legal_ucis(fen: &str) -> (r: Vec<String>)
    ensures
        r@.len() == legal_uci_list(fen@).len(),
        forall|i: int| 0 <= i < r@.len() ==> #[trigger] r@[i]@ == legal_uci_list(fen@)[i],
        forall|i: int|
            0 <= i < r@.len() ==> uci_play(fen@, #[trigger] r@[i]@) is Some && move_shape(
                fen@,
                r@[i]@,
            ) is Some,
{
    match fen.parse::<Fen>().ok().and_then(|f| f.into_position::<Chess>(CastlingMode::Standard).ok()) {
        Some(pos) => pos.legal_moves().iter().map(|m| m.to_uci(CastlingMode::Standard).to_string()).collect(),
        None => Vec::new(),
    }
}

/// `Position::legal_moves` as SAN texts (`SanPlus::from_move`). Claims the
/// list is the named `legal_san_list`, one entry per legal move in the
/// order of `legal_uci_list`, and that each entry is the SAN that playing
/// that move writes (`SanPlus::from_move` and
/// `SanPlus::from_move_and_play_unchecked` disambiguate a legal move
/// against the same candidates and add the same suffix).
#[verifier::external_body]
pub(crate) fn legal_sans(fen: &str) -> (r: Vec<String>)
    ensures
        r@.len() == legal_san_list(fen@).len(),
        forall|i: int| 0 <= i < r@.len() ==> #[trigger] r@[i]@ == legal_san_list(fen@)[i],
        r@.len() == legal_uci_list(fen@).len(),
        forall|i: int|
            0 <= i < r@.len() ==> (uci_play(fen@, legal_uci_list(fen@)[i]) matches Some(p) && p.0
                == #[trigger] r@[i]@),
{
    match fen.parse::<Fen>().ok().and_then(|f| f.into_position::<Chess>(CastlingMode::Standard).ok()) {
        Some(pos) => pos.legal_moves().iter().map(|m| SanPlus::from_move(pos.clone(), *m).to_string()).collect(),
        None => Vec::new(),
    }
}

/// `UciMove::from_str`: `Ok` exactly for a syntactically valid UCI move;
/// the error text is shakmaty's message and is not described.
#[verifier::external_body]
pub(crate) fn check_uci_syntax(uci: &str) -> (r: Result<(), String>)
    ensures
        r is Ok <==> uci_syntax_ok(uci@),
{
    uci.parse::<UciMove>().map(|_| ()).map_err(|e| e.to_string())
}

/// Plays a UCI move with `UciMove::to_move` and
/// `SanPlus::from_move_and_play_unchecked`, then writes the new FEN with
/// `Fen::from_position`. Claims the result is the named `uci_play`, and
/// that the FEN after a legal move reads back to the same position, so
/// that writing it again gives the same text. The error text is
/// shakmaty's message and is not described.
#[verifier::external_body]
pub(crate) fn play_uci(fen: &str, uci: &str) -> (r: Result<(String, String), String>)
    ensures
        match r {
            Ok((san, after)) => {
                &&& uci_play(fen@, uci@) == Some((san@, after@))
                &&& fen_setup(after@) is Some
                &&& canonical_fen(after@) == after@
            },
            Err(_) => uci_play(fen@, uci@) is None,
        },
{
    let mut pos: Chess = fen.parse::<Fen>().map_err(|e| e.to_string())?
        .into_position(CastlingMode::Standard).map_err(|e| e.to_string())?;
    let m = uci.parse::<UciMove>().map_err(|e| e.to_string())?.to_move(&pos).map_err(|e| e.to_string())?;
    let san = SanPlus::from_move_and_play_unchecked(&mut pos, m).to_string();
    Ok((san, Fen::from_position(&pos, EnPassantMode::Legal).to_string()))
}

/// Reads a SAN text (`San::from_str`, `San::to_move`) and writes the move
/// as UCI; claims the result is the named `san_move`.
#[verifier::external_body]
pub(crate) fn san_to_uci(fen: &str, san: &str) -> (r: Option<String>)
    ensures
        match r {
            Some(u) => san_move(fen@, san@) == Some(u@),
            None => san_move(fen@, san@) is None,
        },
{
    let pos: Chess = fen.parse::<Fen>().ok()?.into_position(CastlingMode::Standard).ok()?;
    let m = san.parse::<San>().ok()?.to_move(&pos).ok()?;
    Some(m.to_uci(CastlingMode::Standard).to_string())
}

/// `Position::outcome`, converted to plain values; claims the result is
/// the named `outcome_of`.
#[verifier::external_body]
pub(crate) fn outcome(fen: &str) -> (r: Option<Option<Color>>)
    ensures
        r == outcome_of(fen@),
{
    let pos: Chess = fen.parse::<Fen>().ok()?.into_position(CastlingMode::Standard).ok()?;
    match pos.outcome() {
        Outcome::Known(KnownOutcome::Decisive { winner }) => Some(Some(if winner.is_white() { Color::White } else { Color::Black })),
        Outcome::Known(KnownOutcome::Draw) => Some(None),
        Outcome::Unknown => None,
    }
}

/// `Position::is_stalemate`; claims the result is the named
/// `stalemate_of`.
#[verifier::external_body]
pub(crate) fn is_stalemate(fen: &str) -> (r: bool)
    ensures
        r == stalemate_of(fen@),
{
    fen.parse::<Fen>().ok().and_then(|f| f.into_position::<Chess>(CastlingMode::Standard).ok())
        .map_or(false, |p| p.is_stalemate())
}

/// `Position::is_insufficient_material`; claims the result is the named
/// `insufficient_material_of`.
#[verifier::external_body]
pub(crate) fn is_insufficient_material(fen: &str) -> (r: bool)
    ensures
        r == insufficient_material_of(fen@),
{
    fen.parse::<Fen>().ok().and_then(|f| f.into_position::<Chess>(CastlingMode::Standard).ok())
        .map_or(false, |p| p.is_insufficient_material())
}

/// `Position::is_check`; claims the result is the named `check_of`.
#[verifier::external_body]
pub(crate) fn is_check(fen: &str) -> (r: bool)
    ensures
        r == check_of(fen@),
{
    fen.parse::<Fen>().ok().and_then(|f| f.into_position::<Chess>(CastlingMode::Standard).ok())
        .map_or(false, |p| p.is_check())
}

/// Squares, role and capture of a legal UCI move (`UciMove::to_move`, then
/// `Move::from`, `to`, `role`, `capture`); claims the result is the named
/// `move_shape` and that its squares are below 64.
#[verifier::external_body]
pub(crate) fn shape_of_move(fen: &str, uci: &str) -> (r: Option<MoveShape>)
    ensures
        r == move_shape(fen@, uci@),
        r matches Some(m) ==> m.from < 64 && m.to < 64 && 1 <= m.role <= 6 && (m.captured matches Some(c) ==> 1 <= c <= 6),
{
    let pos: Chess = fen.parse::<Fen>().ok()?.into_position(CastlingMode::Standard).ok()?;
    let m = uci.parse::<UciMove>().ok()?.to_move(&pos).ok()?;
    Some(MoveShape { from: m.from()? as u8, to: m.to() as u8, role: m.role() as u8, captured: m.capture().map(|c| c as u8) })
}

} // verus!
