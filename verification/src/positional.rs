//! Positional features: pawn structure, open files, minor pieces, king
//! safety and mobility.

use vstd::prelude::*;

verus! {

#[derive(Debug, Clone)]
pub struct PositionalReport {
    pub pawn_structure: PawnStructure,
    pub files: FileControl,
    pub minor_pieces: MinorPieces,
    pub king_safety: KingSafety,
    pub mobility: Mobility,
}

#[derive(Debug, Clone, Copy)]
pub struct PawnStructure {
    pub passed: SideCounts,
    pub isolated: SideCounts,
    pub doubled: SideCounts,
    pub backward: SideCounts,
    pub hanging: SideCounts,
    pub islands: SideCounts,
}

#[derive(Debug, Clone)]
pub struct FileControl {
    pub open_files: Vec<char>,
    pub white_semi_open: Vec<char>,
    pub black_semi_open: Vec<char>,
}

#[derive(Debug, Clone)]
pub struct MinorPieces {
    pub white_bishop_pair: bool,
    pub black_bishop_pair: bool,
    pub white_outposts: Vec<String>,
    pub black_outposts: Vec<String>,
}

#[derive(Debug, Clone)]
pub struct KingSafety {
    pub white: KingSafetySide,
    pub black: KingSafetySide,
}

#[derive(Debug, Clone)]
pub struct KingSafetySide {
    pub ring_attackers: u32,
    pub ring_defenders: u32,
    pub shelter_score: i32,
    pub open_lines_to_king: Vec<char>,
}

#[derive(Debug, Clone, Copy, PartialEq, Eq, Structural)]
pub struct Mobility {
    pub white: u32,
    pub black: u32,
}

#[derive(Debug, Clone, Copy, PartialEq, Eq, Structural)]
pub struct SideCounts {
    pub white: u32,
    pub black: u32,
}

impl SideCounts {
    pub open spec fn is_zero(self) -> bool {
        self.white == 0 && self.black == 0
    }
}

impl Default for SideCounts {
    fn default() -> (r: SideCounts)
        ensures
            r.is_zero(),
    {
        SideCounts { white: 0, black: 0 }
    }
}

impl PawnStructure {
    pub open spec fn is_empty(self) -> bool {
        &&& self.passed.is_zero()
        &&& self.isolated.is_zero()
        &&& self.doubled.is_zero()
        &&& self.backward.is_zero()
        &&& self.hanging.is_zero()
        &&& self.islands.is_zero()
    }
}

impl Default for PawnStructure {
    fn default() -> (r: PawnStructure)
        ensures
            r.is_empty(),
    {
        PawnStructure {
            passed: SideCounts::default(),
            isolated: SideCounts::default(),
            doubled: SideCounts::default(),
            backward: SideCounts::default(),
            hanging: SideCounts::default(),
            islands: SideCounts::default(),
        }
    }
}

impl FileControl {
    pub open spec fn is_empty(self) -> bool {
        self.open_files@.len() == 0 && self.white_semi_open@.len() == 0
            && self.black_semi_open@.len() == 0
    }
}

impl Default for FileControl {
    fn default() -> (r: FileControl)
        ensures
            r.is_empty(),
    {
        FileControl {
            open_files: Vec::new(),
            white_semi_open: Vec::new(),
            black_semi_open: Vec::new(),
        }
    }
}

impl MinorPieces {
    pub open spec fn is_empty(self) -> bool {
        !self.white_bishop_pair && !self.black_bishop_pair && self.white_outposts@.len() == 0
            && self.black_outposts@.len() == 0
    }
}

impl Default for MinorPieces {
    fn default() -> (r: MinorPieces)
        ensures
            r.is_empty(),
    {
        MinorPieces {
            white_bishop_pair: false,
            black_bishop_pair: false,
            white_outposts: Vec::new(),
            black_outposts: Vec::new(),
        }
    }
}

impl KingSafetySide {
    pub open spec fn is_empty(self) -> bool {
        self.ring_attackers == 0 && self.ring_defenders == 0 && self.shelter_score == 0
            && self.open_lines_to_king@.len() == 0
    }
}

impl Default for KingSafetySide {
    fn default() -> (r: KingSafetySide)
        ensures
            r.is_empty(),
    {
        KingSafetySide {
            ring_attackers: 0,
            ring_defenders: 0,
            shelter_score: 0,
            open_lines_to_king: Vec::new(),
        }
    }
}

impl KingSafety {
    pub open spec fn is_empty(self) -> bool {
        self.white.is_empty() && self.black.is_empty()
    }
}

impl Default for KingSafety {
    fn default() -> (r: KingSafety)
        ensures
            r.is_empty(),
    {
        KingSafety { white: KingSafetySide::default(), black: KingSafetySide::default() }
    }
}

impl Default for Mobility {
    fn default() -> (r: Mobility)
        ensures
            r.white == 0 && r.black == 0,
    {
        Mobility { white: 0, black: 0 }
    }
}

impl PositionalReport {
    /// Nothing recorded yet.
    pub open spec fn is_empty(self) -> bool {
        &&& self.pawn_structure.is_empty()
        &&& self.files.is_empty()
        &&& self.minor_pieces.is_empty()
        &&& self.king_safety.is_empty()
        &&& self.mobility.white == 0 && self.mobility.black == 0
    }
}

impl Default for PositionalReport {
    fn default() -> (r: PositionalReport)
        ensures
            r.is_empty(),
    {
        PositionalReport {
            pawn_structure: PawnStructure::default(),
            files: FileControl::default(),
            minor_pieces: MinorPieces::default(),
            king_safety: KingSafety::default(),
            mobility: Mobility::default(),
        }
    }
}

} // verus!
