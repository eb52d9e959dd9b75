//! Terminal board rendering from a board descriptor: Unicode or ASCII
//! pieces, chequered 256-colour square backgrounds and an amber
//! highlight on the last move's squares (no colours in ASCII mode).

use vstd::prelude::*;

use crate::position::{Color, Piece, Role};
use crate::text::{decimal, push_char, push_decimal, push_str};

verus! {

/// One square of the board descriptor.
#[derive(Debug, Clone, Copy)]
pub struct BoardCell {
    /// The square (0..64, a1 = 0).
    pub square: u8,
    pub piece: Option<Piece>,
    pub is_light: bool,
    /// The square is one of the last move's two squares.
    pub last_move: bool,
}

/// The board as it is to be drawn: eight rows of cells, top row first,
/// already oriented.
#[derive(Debug, Clone)]
pub struct BoardView {
    pub rows: Vec<Vec<BoardCell>>,
}

#[derive(Debug, Clone, Copy)]
pub struct RenderOptions {
    pub ascii: bool,
    /// The terminal has a light background: filled glyphs then go to
    /// Black's pieces and the square palette is the light one.
    pub light_mode: bool,
}

impl Default for RenderOptions {
    fn default() -> (r: RenderOptions)
        ensures
            !r.ascii && !r.light_mode,
    {
        RenderOptions { ascii: false, light_mode: false }
    }
}

pub const DARK_MODE_DARK_SQUARE: u8 = 234;
pub const DARK_MODE_LIGHT_SQUARE: u8 = 237;
pub const DARK_MODE_HIGHLIGHT: u8 = 94;
pub const LIGHT_MODE_DARK_SQUARE: u8 = 250;
pub const LIGHT_MODE_LIGHT_SQUARE: u8 = 254;
pub const LIGHT_MODE_HIGHLIGHT: u8 = 222;

pub open spec fn spec_cell_bg(is_light_square: bool, highlighted: bool, light_mode: bool) -> u8 {
    if highlighted {
        if light_mode {
            LIGHT_MODE_HIGHLIGHT
        } else {
            DARK_MODE_HIGHLIGHT
        }
    } else if light_mode {
        if is_light_square {
            LIGHT_MODE_LIGHT_SQUARE
        } else {
            LIGHT_MODE_DARK_SQUARE
        }
    } else if is_light_square {
        DARK_MODE_LIGHT_SQUARE
    } else {
        DARK_MODE_DARK_SQUARE
    }
}

/// The 256-colour background of a cell: the highlight for a last-move
/// square, else the light or dark square colour of the palette.
pub fn cell_bg(is_light_square: bool, highlighted: bool, light_mode: bool) -> (r: u8)
    ensures
        r == spec_cell_bg(is_light_square, highlighted, light_mode),
{
    if highlighted {
        return if light_mode {
            LIGHT_MODE_HIGHLIGHT
        } else {
            DARK_MODE_HIGHLIGHT
        };
    }
    if light_mode {
        if is_light_square {
            LIGHT_MODE_LIGHT_SQUARE
        } else {
            LIGHT_MODE_DARK_SQUARE
        }
    } else if is_light_square {
        DARK_MODE_LIGHT_SQUARE
    } else {
        DARK_MODE_DARK_SQUARE
    }
}

pub open spec fn spec_piece_letter(r: Role) -> char {
    match r {
        Role::King => 'K',
        Role::Queen => 'Q',
        Role::Rook => 'R',
        Role::Bishop => 'B',
        Role::Knight => 'N',
        Role::Pawn => 'P',
    }
}

pub fn piece_letter(r: Role) -> (c: char)
    ensures
        c == spec_piece_letter(r),
{
    match r {
        Role::King => 'K',
        Role::Queen => 'Q',
        Role::Rook => 'R',
        Role::Bishop => 'B',
        Role::Knight => 'N',
        Role::Pawn => 'P',
    }
}

/// The chess glyph of a role, filled or outlined.
pub open spec fn glyph_char(r: Role, filled: bool) -> char {
    match r {
        Role::King => if filled {
            '♚'
        } else {
            '♔'
        },
        Role::Queen => if filled {
            '♛'
        } else {
            '♕'
        },
        Role::Rook => if filled {
            '♜'
        } else {
            '♖'
        },
        Role::Bishop => if filled {
            '♝'
        } else {
            '♗'
        },
        Role::Knight => if filled {
            '♞'
        } else {
            '♘'
        },
        Role::Pawn => if filled {
            '♟'
        } else {
            '♙'
        },
    }
}

/// The text of a cell's content. Empty squares are a dot in ASCII and a
/// blank otherwise; ASCII pieces are their FEN letter. Glyphs are drawn
/// in the terminal's foreground colour, so on a dark terminal the filled
/// glyphs go to White; Black's glyphs are dimmed. On a Windows console
/// both pawns are the outlined glyph, told apart by colour (it draws the
/// filled pawn as an emoji).
pub open spec fn spec_cell_glyph(piece: Option<Piece>, ascii: bool, light_mode: bool, windows: bool) -> Seq<char> {
    match piece {
        None => if ascii {
            "."@
        } else {
            " "@
        },
        Some(p) => {
            let white = p.color == Color::White;
            if ascii {
                if white {
                    seq![spec_piece_letter(p.role)]
                } else {
                    seq![(spec_piece_letter(p.role) as u32 + 32) as char]
                }
            } else if windows && p.role == Role::Pawn {
                if white {
                    "\x1b[1;97m♙\u{FE0E}\x1b[22;39m"@
                } else {
                    "\x1b[90m♙\u{FE0E}\x1b[39m"@
                }
            } else {
                let filled = if light_mode {
                    !white
                } else {
                    white
                };
                let g = glyph_char(p.role, filled);
                if white {
                    seq![g, '\u{FE0E}']
                } else {
                    "\x1b[90m"@ + seq![g, '\u{FE0E}'] + "\x1b[39m"@
                }
            }
        },
    }
}

fn glyph_of(r: Role, filled: bool) -> (c: char)
    ensures
        c == glyph_char(r, filled),
{
    match r {
        Role::King => if filled {
            '♚'
        } else {
            '♔'
        },
        Role::Queen => if filled {
            '♛'
        } else {
            '♕'
        },
        Role::Rook => if filled {
            '♜'
        } else {
            '♖'
        },
        Role::Bishop => if filled {
            '♝'
        } else {
            '♗'
        },
        Role::Knight => if filled {
            '♞'
        } else {
            '♘'
        },
        Role::Pawn => if filled {
            '♟'
        } else {
            '♙'
        },
    }
}

/// The text of a cell's content; `windows` tells whether the terminal is
/// a Windows console.
pub fn cell_glyph(piece: Option<Piece>, ascii: bool, light_mode: bool, windows: bool) -> (r: String)
    ensures
        r@ == spec_cell_glyph(piece, ascii, light_mode, windows),
{
    let mut out = String::new();
    let p = match piece {
        None => {
            if ascii {
                push_str(&mut out, ".");
            } else {
                push_str(&mut out, " ");
            }
            return out;
        },
        Some(p) => p,
    };
    let white = p.color == Color::White;
    if ascii {
        let letter = piece_letter(p.role);
        if white {
            push_char(&mut out, letter);
        } else {
            push_char(&mut out, ((letter as u8) + 32) as char);
        }
        assert(out@ =~= spec_cell_glyph(piece, ascii, light_mode, windows));
        return out;
    }
    if windows && p.role == Role::Pawn {
        if white {
            push_str(&mut out, "\x1b[1;97m♙\u{FE0E}\x1b[22;39m");
        } else {
            push_str(&mut out, "\x1b[90m♙\u{FE0E}\x1b[39m");
        }
        return out;
    }
    let filled = if light_mode {
        !white
    } else {
        white
    };
    let g = glyph_of(p.role, filled);
    if white {
        push_char(&mut out, g);
        push_char(&mut out, '\u{FE0E}');
    } else {
        push_str(&mut out, "\x1b[90m");
        push_char(&mut out, g);
        push_char(&mut out, '\u{FE0E}');
        push_str(&mut out, "\x1b[39m");
    }
    assert(out@ =~= spec_cell_glyph(piece, ascii, light_mode, windows));
    out
}

/// The view has eight rows, none empty, and every square is on the
/// board.
pub open spec fn well_shaped(view: BoardView) -> bool {
    &&& view.rows@.len() >= 8
    &&& forall|i: int| 0 <= i < view.rows@.len() ==> (#[trigger] view.rows@[i])@.len() > 0
    &&& forall|i: int, j: int|
        0 <= i < view.rows@.len() && 0 <= j < view.rows@[i]@.len() ==> (
        #[trigger] view.rows@[i]@[j]).square < 64
}

pub open spec fn file_letter_of(sq: int) -> char {
    ('a' as int + sq % 8) as char
}

pub open spec fn label_cells(row: Seq<BoardCell>, k: int) -> Seq<char>
    decreases k,
{
    if k <= 0 {
        Seq::empty()
    } else {
        label_cells(row, k - 1) + seq![file_letter_of(row[k - 1].square as int), ' ']
    }
}

/// The file labels, read off the bottom row's squares.
pub open spec fn labels_line(view: BoardView) -> Seq<char> {
    let row = view.rows@[7]@;
    "  "@ + label_cells(row, row.len() as int) + "\n"@
}

pub open spec fn cell_text(c: BoardCell, opts: RenderOptions, windows: bool) -> Seq<char> {
    (if opts.ascii {
        Seq::empty()
    } else {
        "\x1b[48;5;"@ + decimal(spec_cell_bg(c.is_light, c.last_move, opts.light_mode) as nat) + "m"@
    }) + spec_cell_glyph(c.piece, opts.ascii, opts.light_mode, windows) + " "@ + if opts.ascii {
        Seq::empty()
    } else {
        "\x1b[49m"@
    }
}

pub open spec fn row_cells(row: Seq<BoardCell>, opts: RenderOptions, windows: bool, k: int) -> Seq<char>
    decreases k,
{
    if k <= 0 {
        Seq::empty()
    } else {
        row_cells(row, opts, windows, k - 1) + cell_text(row[k - 1], opts, windows)
    }
}

/// One rank: its number (read off the first cell), its cells, its
/// number again.
pub open spec fn row_text(row: Seq<BoardCell>, opts: RenderOptions, windows: bool) -> Seq<char> {
    let rank = decimal((row[0].square / 8 + 1) as nat);
    rank + " "@ + row_cells(row, opts, windows, row.len() as int) + rank + "\n"@
}

pub open spec fn rows_text(rows: Seq<Vec<BoardCell>>, opts: RenderOptions, windows: bool, k: int) -> Seq<char>
    decreases k,
{
    if k <= 0 {
        Seq::empty()
    } else {
        rows_text(rows, opts, windows, k - 1) + row_text(rows[k - 1]@, opts, windows)
    }
}

pub open spec fn spec_render(view: BoardView, opts: RenderOptions, windows: bool) -> Seq<char> {
    labels_line(view) + rows_text(view.rows@, opts, windows, view.rows@.len() as int)
        + labels_line(view)
}

fn write_file_labels(out: &mut String, view: &BoardView)
    requires
        well_shaped(*view),
    ensures
        final(out)@ == old(out)@ + labels_line(*view),
{
    push_str(out, "  ");
    let row = &view.rows[7];
    let ghost head = out@;
    let mut j: usize = 0;
    while j < row.len()
        invariant
            j <= row@.len(),
            row@ == view.rows@[7]@,
            well_shaped(*view),
            out@ == head + label_cells(row@, j as int),
        decreases row.len() - j,
    {
        let sq = row[j].square;
        assert(view.rows@[7]@[j as int].square < 64);
        push_char(out, (97u8 + sq % 8) as char);
        push_char(out, ' ');
        j = j + 1;
        assert(out@ =~= head + label_cells(row@, j as int));
    }
    push_str(out, "\n");
    assert(out@ =~= old(out)@ + labels_line(*view));
}

fn write_cell(out: &mut String, c: &BoardCell, opts: &RenderOptions, windows: bool)
    ensures
        final(out)@ == old(out)@ + cell_text(*c, *opts, windows),
{
    if !opts.ascii {
        let bg = cell_bg(c.is_light, c.last_move, opts.light_mode);
        push_str(out, "\x1b[48;5;");
        push_decimal(out, bg as u64);
        push_str(out, "m");
    }
    let g = cell_glyph(c.piece, opts.ascii, opts.light_mode, windows);
    push_str(out, g.as_str());
    push_str(out, " ");
    if !opts.ascii {
        push_str(out, "\x1b[49m");
    }
    assert(out@ =~= old(out)@ + cell_text(*c, *opts, windows));
}

fn write_row(out: &mut String, row: &Vec<BoardCell>, opts: &RenderOptions, windows: bool)
    requires
        row@.len() > 0,
        forall|j: int| 0 <= j < row@.len() ==> (#[trigger] row@[j]).square < 64,
    ensures
        final(out)@ == old(out)@ + row_text(row@, *opts, windows),
{
    let rank = (row[0].square / 8 + 1) as u64;
    push_decimal(out, rank);
    push_str(out, " ");
    let ghost head = out@;
    let mut j: usize = 0;
    while j < row.len()
        invariant
            j <= row@.len(),
            out@ == head + row_cells(row@, *opts, windows, j as int),
        decreases row.len() - j,
    {
        write_cell(out, &row[j], opts, windows);
        j = j + 1;
    }
    push_decimal(out, rank);
    push_str(out, "\n");
    assert(out@ =~= old(out)@ + row_text(row@, *opts, windows));
}

/// Render a board descriptor: file labels, each row with its rank number
/// on both sides, file labels. `windows` tells whether the terminal is a
/// Windows console.
pub fn render(view: &BoardView, opts: &RenderOptions, windows: bool) -> (r: String)
    requires
        well_shaped(*view),
    ensures
        r@ == spec_render(*view, *opts, windows),
{
    let mut out = String::new();
    write_file_labels(&mut out, view);
    let ghost head = out@;
    let mut i: usize = 0;
    while i < view.rows.len()
        invariant
            i <= view.rows@.len(),
            well_shaped(*view),
            out@ == head + rows_text(view.rows@, *opts, windows, i as int),
        decreases view.rows.len() - i,
    {
        let row = &view.rows[i];
        assert(row@.len() > 0);
        assert(forall|j: int| 0 <= j < row@.len() ==> (#[trigger] row@[j]).square < 64) by {
            assert forall|j: int| 0 <= j < row@.len() implies (#[trigger] row@[j]).square < 64 by {
                assert(view.rows@[i as int]@[j].square < 64);
            }
        }
        write_row(&mut out, row, opts, windows);
        i = i + 1;
    }
    let ghost mid = out@;
    write_file_labels(&mut out, view);
    assert(out@ =~= spec_render(*view, *opts, windows));
    out
}

} // verus!
