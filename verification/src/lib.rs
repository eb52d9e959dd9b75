//! Chess tutor: position analysis (attack maps, static exchange
//! evaluation, threat scans), live game state, and the text renderings
//! built on them. Everything is driven from FEN text; move generation, SAN
//! and FEN handling come from `shakmaty`.

pub mod alignments_view;
pub mod analysis;
pub mod analysis_report;
pub mod attacks_view;
pub mod bench;
pub mod bitboard;
pub mod board_render;
pub mod book;
pub mod cli_args;
pub mod engine;
pub mod engine_repl;
pub mod error;
pub mod eval_report;
pub mod explain;
pub mod ffi;
pub mod forcing_view;
pub mod game;
pub mod glossary;
pub mod inspect;
pub mod noise_bench;
pub mod piece_fmt;
pub mod play_repl;
pub mod play_session;
pub mod position;
pub mod positional;
pub mod repl_parse;
pub mod retrospective;
pub mod rules;
pub mod search;
pub mod search_report;
pub mod see;
pub mod settled_audit;
pub mod shaded_board;
pub mod square_view;
pub mod summary;
pub mod tactic_names;
pub mod tactics;
pub mod tactics_view;
pub mod text;
pub mod threats;
pub mod threats_view;
pub mod uci_shim;

use vstd::prelude::*;

use crate::analysis::{attack_table, AttackMap, SquareData, SquareReport};
use crate::bitboard::popcount;
use crate::error::Error;
use crate::position::{fen_setup, Color, Position};

verus! {

/// Version of the analysis schema.
pub const ANALYSIS_SCHEMA_VERSION: u32 = 1;

/// Top-level output of the analysis pipeline for a single position.
#[derive(Debug, Clone)]
pub struct PositionAnalysis {
    pub schema_version: u32,
    pub fen: String,
    pub square_data: analysis::SquareData,
    pub candidates: Vec<analysis::CandidateMove>,
    pub tactics: tactics::TacticsReport,
    pub positional: positional::PositionalReport,
    pub opening: Option<book::OpeningHit>,
    pub forcing_lines: Vec<search::ForcingLine>,
    pub engine_check: Option<engine::EngineCheck>,
}

impl PositionAnalysis {
    /// The analysis of `fen` before any analysis step has filled it in.
    pub open spec fn is_empty_for(self, fen: Seq<char>) -> bool {
        &&& self.schema_version == ANALYSIS_SCHEMA_VERSION
        &&& self.fen@ == fen
        &&& self.square_data.squares@.len() == 0
        &&& self.candidates@.len() == 0
        &&& self.tactics.motifs@.len() == 0
        &&& self.positional.is_empty()
        &&& self.opening is None
        &&& self.forcing_lines@.len() == 0
        &&& self.engine_check is None
    }

    pub fn empty(fen: &str) -> (r: PositionAnalysis)
        ensures
            r.is_empty_for(fen@),
    {
        PositionAnalysis {
            schema_version: ANALYSIS_SCHEMA_VERSION,
            fen: fen.to_owned(),
            square_data: SquareData::default(),
            candidates: Vec::new(),
            tactics: tactics::TacticsReport::default(),
            positional: positional::PositionalReport::default(),
            opening: None,
            forcing_lines: Vec::new(),
            engine_check: None,
        }
    }
}

/// Per-square attacker counts of both colours for a placement.
pub open spec fn square_counts(b: position::Board) -> Seq<SquareReport> {
    Seq::new(
        64,
        |i: int|
            SquareReport {
                white_attackers: popcount(attack_table(b, Color::White)[i]) as u8,
                black_attackers: popcount(attack_table(b, Color::Black)[i]) as u8,
                see: None,
            },
    )
}

/// Analyse a position given its FEN: refused exactly when the text is not
/// the FEN of a legal position; otherwise the empty analysis of that FEN
/// with the attacker counts of every square filled in.
pub fn analyze(fen: &str) -> (r: Result<PositionAnalysis, Error>)
    ensures
        r is Err <==> fen_setup(fen@) is None,
        r matches Err(e) ==> e is InvalidFen,
        r matches Ok(a) ==> {
            &&& a.schema_version == ANALYSIS_SCHEMA_VERSION
            &&& a.fen@ == fen@
            &&& fen_setup(fen@) matches Some(s) && a.square_data.squares@ == square_counts(s.board)
            &&& a.candidates@.len() == 0
            &&& a.tactics.motifs@.len() == 0
            &&& a.positional.is_empty()
            &&& a.opening is None
            &&& a.forcing_lines@.len() == 0
            &&& a.engine_check is None
        },
{
    let pos = match Position::from_fen(fen) {
        Ok(p) => p,
        Err(e) => return Err(Error::InvalidFen(e)),
    };
    let attack_map = AttackMap::from_position(&pos);
    let mut report = PositionAnalysis::empty(fen);
    report.square_data = attack_map.to_square_data();
    assert(report.square_data.squares@ =~= square_counts(pos.spec_setup().board));
    Ok(report)
}

} // verus!
