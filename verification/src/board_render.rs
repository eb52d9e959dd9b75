//! Unicode chess board rendering from a FEN.
//!
//! - Unicode pieces (default) with an ASCII fallback for terminals that
//!   cannot render the chess glyphs.
//! - Optional flip for Black's perspective.
//! - Optional last-move highlight in ANSI reverse video.

use vstd::prelude::*;

use crate::text::{chars_of, is_whitespace, push_char, push_chars, skip_ws, token_end};

verus! {

#[derive(Debug, Clone, Default)]
pub struct RenderOptions {
    pub ascii: bool,
    pub flip: bool,
    /// `(from_square, to_square)` as UCI squares (e.g. `("e2", "e4")`); both
    /// squares are rendered in reverse video.
    pub highlight: Option<(String, String)>,
}

/// The first whitespace-separated field of a FEN (the piece placement),
/// or the whole text when it holds no field.
pub open spec fn placement_field(s: Seq<char>) -> Seq<char> {
    let a = skip_ws(s, 0);
    if a >= s.len() {
        s
    } else {
        s.subrange(a, token_end(s, a))
    }
}

/// Scan state over a placement field: 64 cells (row 0 is rank 8, cell
/// `row * 8 + file`), current row and current file.
pub open spec fn scan_step(g: (Seq<char>, int, int), ch: char) -> (Seq<char>, int, int) {
    let (cells, row, file) = g;
    if ch == '/' {
        (cells, row + 1, 0)
    } else if '1' <= ch && ch <= '8' {
        (cells, row, file + (ch as int - '0' as int))
    } else if row < 8 && file < 8 {
        (cells.update(row * 8 + file, ch), row, file + 1)
    } else {
        g
    }
}

/// The scan state after the first `n` characters of `s`.
pub open spec fn scan_prefix(s: Seq<char>, n: nat) -> (Seq<char>, int, int)
    decreases n,
{
    if n == 0 {
        (Seq::new(64, |i: int| ' '), 0, 0)
    } else {
        scan_step(scan_prefix(s, (n - 1) as nat), s[n - 1])
    }
}

/// The 8x8 grid of FEN piece letters (' ' for empty) of a placement field.
pub open spec fn placement_grid(s: Seq<char>) -> Seq<char> {
    scan_prefix(s, s.len()).0
}

/// `(row, file)` of a UCI square name such as "e2" (row 0 is rank 8).
pub open spec fn spec_square_to_idx(s: Seq<char>) -> Option<(int, int)> {
    if s.len() == 2 && 'a' <= s[0] && s[0] <= 'h' && '1' <= s[1] && s[1] <= '8' {
        Some(('8' as int - s[1] as int, s[0] as int - 'a' as int))
    } else {
        None
    }
}

/// The texts of the two highlighted squares, when there are any.
pub open spec fn highlight_views(opts: RenderOptions) -> Option<(Seq<char>, Seq<char>)> {
    match opts.highlight {
        Some((from, to)) => Some((from@, to@)),
        None => None,
    }
}

/// The highlighted cells, when both squares of the highlight are valid.
pub open spec fn highlight_cells_of(h: Option<(Seq<char>, Seq<char>)>) -> Option<
    ((int, int), (int, int)),
> {
    match h {
        Some((from, to)) => match (spec_square_to_idx(from), spec_square_to_idx(to)) {
            (Some(a), Some(b)) => Some((a, b)),
            _ => None,
        },
        None => None,
    }
}

pub open spec fn highlight_cells(opts: RenderOptions) -> Option<((int, int), (int, int))> {
    highlight_cells_of(highlight_views(opts))
}

/// Display text of one cell content.
pub open spec fn spec_cell_glyph(ch: char, ascii: bool) -> Seq<char> {
    if ch == ' ' {
        if ascii {
            seq!['.']
        } else {
            seq!['·']
        }
    } else if ascii {
        seq![ch]
    } else {
        match ch {
            'K' => seq!['♔', '\u{FE0E}'],
            'Q' => seq!['♕', '\u{FE0E}'],
            'R' => seq!['♖', '\u{FE0E}'],
            'B' => seq!['♗', '\u{FE0E}'],
            'N' => seq!['♘', '\u{FE0E}'],
            'P' => seq!['♙', '\u{FE0E}'],
            'k' => seq!['♚', '\u{FE0E}'],
            'q' => seq!['♛', '\u{FE0E}'],
            'r' => seq!['♜', '\u{FE0E}'],
            'b' => seq!['♝', '\u{FE0E}'],
            'n' => seq!['♞', '\u{FE0E}'],
            'p' => seq!['♟', '\u{FE0E}'],
            _ => seq!['?'],
        }
    }
}

/// Board index (row or file) shown at display position `i`.
pub open spec fn oriented(flip: bool, i: int) -> int {
    if flip {
        7 - i
    } else {
        i
    }
}

/// The file-label line: two spaces, then each file letter followed by a
/// space, then a newline.
pub open spec fn labels_line(flip: bool) -> Seq<char> {
    seq![' ', ' '] + label_cells(flip, 8) + seq!['\n']
}

pub open spec fn label_cells(flip: bool, k: nat) -> Seq<char>
    decreases k,
{
    if k == 0 {
        Seq::empty()
    } else {
        label_cells(flip, (k - 1) as nat) + seq![
            ('a' as int + oriented(flip, k - 1)) as char,
            ' ',
        ]
    }
}

/// One rendered cell: the glyph, wrapped in reverse video when
/// highlighted, then a space.
pub open spec fn cell_text(
    grid: Seq<char>,
    row: int,
    file: int,
    ascii: bool,
    hl: Option<((int, int), (int, int))>,
) -> Seq<char> {
    let glyph = spec_cell_glyph(grid[row * 8 + file], ascii);
    if cell_lit(hl, row, file) {
        seq!['\x1b', '[', '7', 'm'] + glyph + seq!['\x1b', '[', '0', 'm', ' ']
    } else {
        glyph + seq![' ']
    }
}

/// The cell is one of the highlighted squares.
pub open spec fn cell_lit(hl: Option<((int, int), (int, int))>, row: int, file: int) -> bool {
    match hl {
        Some((a, b)) => (row, file) == a || (row, file) == b,
        None => false,
    }
}

pub open spec fn row_cells(
    grid: Seq<char>,
    row: int,
    ascii: bool,
    flip: bool,
    hl: Option<((int, int), (int, int))>,
    k: nat,
) -> Seq<char>
    decreases k,
{
    if k == 0 {
        Seq::empty()
    } else {
        row_cells(grid, row, ascii, flip, hl, (k - 1) as nat) + cell_text(
            grid,
            row,
            oriented(flip, k - 1),
            ascii,
            hl,
        )
    }
}

/// Digit of the rank shown on board row `row`.
pub open spec fn rank_digit(row: int) -> char {
    ('0' as int + (8 - row)) as char
}

/// One rendered rank: its number, its cells, its number again.
pub open spec fn row_line(
    grid: Seq<char>,
    row: int,
    ascii: bool,
    flip: bool,
    hl: Option<((int, int), (int, int))>,
) -> Seq<char> {
    seq![rank_digit(row), ' '] + row_cells(grid, row, ascii, flip, hl, 8) + seq![
        rank_digit(row),
        '\n',
    ]
}

pub open spec fn rows_text(
    grid: Seq<char>,
    ascii: bool,
    flip: bool,
    hl: Option<((int, int), (int, int))>,
    k: nat,
) -> Seq<char>
    decreases k,
{
    if k == 0 {
        Seq::empty()
    } else {
        rows_text(grid, ascii, flip, hl, (k - 1) as nat) + row_line(
            grid,
            oriented(flip, k - 1),
            ascii,
            flip,
            hl,
        )
    }
}

/// The rendered board of a FEN: file labels, eight ranks (rank 8 first, or
/// rank 1 first when flipped), file labels; the squares named by `h`
/// are shown in reverse video when both names are valid.
pub open spec fn board_text(
    fen: Seq<char>,
    ascii: bool,
    flip: bool,
    h: Option<(Seq<char>, Seq<char>)>,
) -> Seq<char> {
    let grid = placement_grid(placement_field(fen));
    labels_line(flip) + rows_text(grid, ascii, flip, highlight_cells_of(h), 8) + labels_line(flip)
}

pub open spec fn spec_render(fen: Seq<char>, opts: RenderOptions) -> Seq<char> {
    board_text(fen, opts.ascii, opts.flip, highlight_views(opts))
}

/// The placement field of a FEN's characters.
fn placement_of(s: &Vec<char>) -> (r: Vec<char>)
    ensures
        r@ == placement_field(s@),
        r@.len() <= s@.len(),
{
    let n = s.len();
    let mut start: usize = 0;
    while start < n && is_whitespace(s[start])
        invariant
            start <= n,
            n == s@.len(),
            skip_ws(s@, 0) == skip_ws(s@, start as int),
        decreases n - start,
    {
        start = start + 1;
    }
    if start >= n {
        return s.clone();
    }
    let mut end: usize = start;
    while end < n && !is_whitespace(s[end])
        invariant
            start <= end <= n,
            n == s@.len(),
            token_end(s@, start as int) == token_end(s@, end as int),
        decreases n - end,
    {
        end = end + 1;
    }
    let mut out: Vec<char> = Vec::new();
    let mut i: usize = start;
    while i < end
        invariant
            start <= i <= end,
            end <= n,
            n == s@.len(),
            out@ == s@.subrange(start as int, i as int),
        decreases end - i,
    {
        out.push(s[i]);
        i = i + 1;
        assert(out@ =~= s@.subrange(start as int, i as int));
    }
    out
}

/// `v`, capped at 8: past the last row or file nothing more is written,
/// so the scan only needs to know that it is there.
pub open spec fn cap8(v: int) -> int {
    if v < 8 {
        v
    } else {
        8
    }
}

/// The 64-cell grid of a placement field.
fn scan_placement(field: &Vec<char>) -> (r: Vec<char>)
    ensures
        r@ == placement_grid(field@),
        r@.len() == 64,
{
    let mut grid: Vec<char> = Vec::new();
    let mut k: usize = 0;
    while k < 64
        invariant
            k <= 64,
            grid@ == Seq::new(k as nat, |i: int| ' '),
        decreases 64 - k,
    {
        grid.push(' ');
        k = k + 1;
        assert(grid@ =~= Seq::new(k as nat, |i: int| ' '));
    }
    let mut row: usize = 0;
    let mut file: usize = 0;
    let mut i: usize = 0;
    while i < field.len()
        invariant
            i <= field@.len(),
            grid@.len() == 64,
            scan_prefix(field@, i as nat).0 == grid@,
            scan_prefix(field@, i as nat).1 >= 0,
            scan_prefix(field@, i as nat).2 >= 0,
            row as int == cap8(scan_prefix(field@, i as nat).1),
            file as int == cap8(scan_prefix(field@, i as nat).2),
        decreases field.len() - i,
    {
        let ch = field[i];
        if ch == '/' {
            if row < 8 {
                row = row + 1;
            }
            file = 0;
        } else if '1' <= ch && ch <= '8' {
            let d = (ch as u32 - '0' as u32) as usize;
            file = if file + d < 8 {
                file + d
            } else {
                8
            };
        } else if row < 8 && file < 8 {
            grid.set(row * 8 + file, ch);
            file = file + 1;
        }
        i = i + 1;
    }
    grid
}

/// Write the line of file labels, in display order.
fn write_file_labels(out: &mut String, flip: bool)
    ensures
        final(out)@ == old(out)@ + labels_line(flip),
{
    push_char(out, ' ');
    push_char(out, ' ');
    let mut k: u8 = 0;
    while k < 8
        invariant
            k <= 8,
            out@ == old(out)@ + seq![' ', ' '] + label_cells(flip, k as nat),
        decreases 8 - k,
    {
        let f: u8 = if flip {
            7 - k
        } else {
            k
        };
        let letter: u8 = 97u8 + f;
        push_char(out, letter as char);
        push_char(out, ' ');
        k = k + 1;
    }
    push_char(out, '\n');
}

/// Display text of one cell content: the letter in ASCII mode, otherwise
/// the chess glyph with a text-presentation selector (so the black pawn is
/// not drawn as an emoji); `.` / `·` for an empty square, `?` for any other
/// letter.
fn cell_glyph(ch: char, ascii: bool) -> (r: Vec<char>)
    ensures
        r@ == spec_cell_glyph(ch, ascii),
{
    if ch == ' ' {
        return if ascii {
            vec!['.']
        } else {
            vec!['·']
        };
    }
    if ascii {
        return vec![ch];
    }
    let piece = match ch {
        'K' => '♔',
        'Q' => '♕',
        'R' => '♖',
        'B' => '♗',
        'N' => '♘',
        'P' => '♙',
        'k' => '♚',
        'q' => '♛',
        'r' => '♜',
        'b' => '♝',
        'n' => '♞',
        'p' => '♟',
        _ => return vec!['?'],
    };
    vec![piece, '\u{FE0E}']
}

/// Write one cell: its glyph, in reverse video when `lit`, then a space.
fn write_cell(out: &mut String, ch: char, ascii: bool, lit: bool)
    ensures
        final(out)@ == old(out)@ + (if lit {
            seq!['\x1b', '[', '7', 'm'] + spec_cell_glyph(ch, ascii) + seq!['\x1b', '[', '0', 'm', ' ']
        } else {
            spec_cell_glyph(ch, ascii) + seq![' ']
        }),
{
    let glyph = cell_glyph(ch, ascii);
    if lit {
        push_char(out, '\x1b');
        push_char(out, '[');
        push_char(out, '7');
        push_char(out, 'm');
        push_chars(out, &glyph);
        push_char(out, '\x1b');
        push_char(out, '[');
        push_char(out, '0');
        push_char(out, 'm');
        push_char(out, ' ');
        assert(out@ =~= old(out)@ + (seq!['\x1b', '[', '7', 'm'] + spec_cell_glyph(ch, ascii) + seq![
            '\x1b', '[', '0', 'm', ' ']));
    } else {
        push_chars(out, &glyph);
        push_char(out, ' ');
        assert(out@ =~= old(out)@ + (spec_cell_glyph(ch, ascii) + seq![' ']));
    }
}

/// `(row, file)` of a UCI square name, row 0 being rank 8.
fn square_to_idx(sq: &str) -> (r: Option<(usize, usize)>)
    ensures
        match r {
            Some((a, b)) => spec_square_to_idx(sq@) == Some((a as int, b as int)),
            None => spec_square_to_idx(sq@) is None,
        },
{
    let cs = chars_of(sq);
    if cs.len() != 2 {
        return None;
    }
    let file_ch = cs[0];
    let rank_ch = cs[1];
    if !('a' <= file_ch && file_ch <= 'h') || !('1' <= rank_ch && rank_ch <= '8') {
        return None;
    }
    let file = (file_ch as u32 - 'a' as u32) as usize;
    let rank = ('8' as u32 - rank_ch as u32) as usize;
    Some((rank, file))
}

/// The highlighted cells as indices, matching `ghl`.
pub open spec fn hl_matches(hl: Option<((usize, usize), (usize, usize))>, ghl: Option<((int, int), (int, int))>) -> bool {
    match hl {
        Some(((a0, a1), (b0, b1))) => ghl == Some(((a0 as int, a1 as int), (b0 as int, b1 as int))),
        None => ghl is None,
    }
}

/// Write board row `row`: its rank digit, its eight cells, its digit.
fn write_row(
    out: &mut String,
    grid: &Vec<char>,
    row: usize,
    ascii: bool,
    flip: bool,
    hl: Option<((usize, usize), (usize, usize))>,
    Ghost(ghl): Ghost<Option<((int, int), (int, int))>>,
)
    requires
        row < 8,
        grid@.len() == 64,
        hl_matches(hl, ghl),
    ensures
        final(out)@ == old(out)@ + row_line(grid@, row as int, ascii, flip, ghl),
{
    let digit: char = (48u8 + (8 - row) as u8) as char;
    push_char(out, digit);
    push_char(out, ' ');
    let ghost head = out@;
    let mut j: usize = 0;
    while j < 8
        invariant
            j <= 8,
            row < 8,
            grid@.len() == 64,
            hl_matches(hl, ghl),
            out@ == head + row_cells(grid@, row as int, ascii, flip, ghl, j as nat),
        decreases 8 - j,
    {
        let file: usize = if flip {
            7 - j
        } else {
            j
        };
        let lit = match hl {
            Some(((a0, a1), (b0, b1))) => (row == a0 && file == a1) || (row == b0 && file == b1),
            None => false,
        };
        assert(lit == cell_lit(ghl, row as int, file as int));
        write_cell(out, grid[row * 8 + file], ascii, lit);
        assert(out@ =~= head + row_cells(grid@, row as int, ascii, flip, ghl, (j + 1) as nat));
        j = j + 1;
    }
    push_char(out, digit);
    push_char(out, '\n');
    assert(out@ =~= old(out)@ + row_line(grid@, row as int, ascii, flip, ghl));
}

/// Render a FEN's board portion into a multi-line display string.
pub fn render(fen: &str, opts: &RenderOptions) -> (r: String)
    ensures
        r@ == spec_render(fen@, *opts),
{
    let chars = chars_of(fen);
    let field = placement_of(&chars);
    let grid = scan_placement(&field);
    let hl: Option<((usize, usize), (usize, usize))> = match &opts.highlight {
        Some((from, to)) => match (square_to_idx(from.as_str()), square_to_idx(to.as_str())) {
            (Some(a), Some(b)) => Some((a, b)),
            _ => None,
        },
        None => None,
    };
    let ghost ghl = highlight_cells(*opts);
    assert(hl_matches(hl, ghl));
    let mut out = String::new();
    write_file_labels(&mut out, opts.flip);
    let mut k: usize = 0;
    while k < 8
        invariant
            k <= 8,
            grid@.len() == 64,
            grid@ == placement_grid(placement_field(fen@)),
            ghl == highlight_cells(*opts),
            hl_matches(hl, ghl),
            out@ == labels_line(opts.flip) + rows_text(grid@, opts.ascii, opts.flip, ghl, k as nat),
        decreases 8 - k,
    {
        let row: usize = if opts.flip {
            7 - k
        } else {
            k
        };
        write_row(&mut out, &grid, row, opts.ascii, opts.flip, hl, Ghost(ghl));
        k = k + 1;
    }
    write_file_labels(&mut out, opts.flip);
    out
}


proof fn lemma_scan_len(s: Seq<char>, n: nat)
    requires
        n <= s.len(),
    ensures
        scan_prefix(s, n).0.len() == 64,
        scan_prefix(s, n).1 >= 0,
        scan_prefix(s, n).2 >= 0,
    decreases n,
{
    if n > 0 {
        lemma_scan_len(s, (n - 1) as nat);
        let g = scan_prefix(s, (n - 1) as nat);
        let ch = s[n - 1];
        assert(scan_prefix(s, n) == scan_step(g, ch));
        if ch != '/' && !('1' <= ch && ch <= '8') && g.1 < 8 && g.2 < 8 {
            assert(0 <= g.1 * 8 + g.2 < 64) by (nonlinear_arith)
                requires
                    0 <= g.1 < 8,
                    0 <= g.2 < 8,
            ;
        }
    }
}

/// Whatever the text, the board has exactly 64 cells: placement characters
/// past the eighth rank or the eighth file are dropped.
pub proof fn law_grid_has_64_cells(field: Seq<char>)
    ensures
        placement_grid(field).len() == 64,
{
    lemma_scan_len(field, field.len());
}

/// A placement character that lands past the eighth rank or the eighth
/// file leaves the board as it was.
pub proof fn law_out_of_range_cell_is_dropped(g: (Seq<char>, int, int), ch: char)
    requires
        !(g.1 < 8 && g.2 < 8),
    ensures
        scan_step(g, ch).0 == g.0,
{
}

/// A highlight naming a square outside a1..h8 renders as no highlight.
pub proof fn law_invalid_highlight_is_none(fen: Seq<char>, opts: RenderOptions)
    requires
        highlight_cells(opts) is None,
    ensures
        spec_render(fen, opts) == board_text(fen, opts.ascii, opts.flip, None),
{
}

/// The glyph of a cell holds a line break only for a line break in ASCII
/// mode.
pub open spec fn glyph_breaks(ch: char, ascii: bool) -> bool {
    ascii && ch == '\n'
}

proof fn lemma_row_cells(
    grid: Seq<char>,
    row: int,
    ascii: bool,
    flip: bool,
    hl: Option<((int, int), (int, int))>,
    k: nat,
)
    requires
        grid.len() == 64,
        0 <= row < 8,
        k <= 8,
        forall|j: int| 0 <= j < 64 ==> !glyph_breaks(#[trigger] grid[j], ascii),
    ensures
        forall|j: int|
            0 <= j < row_cells(grid, row, ascii, flip, hl, k).len() ==> #[trigger] row_cells(
                grid,
                row,
                ascii,
                flip,
                hl,
                k,
            )[j] != '\n',
        k > 0 ==> row_cells(grid, row, ascii, flip, hl, k).last() == ' ',
    decreases k,
{
    if k > 0 {
        lemma_row_cells(grid, row, ascii, flip, hl, (k - 1) as nat);
        let f = oriented(flip, k - 1);
        let ch = grid[row * 8 + f];
        assert(!glyph_breaks(ch, ascii));
        let prev = row_cells(grid, row, ascii, flip, hl, (k - 1) as nat);
        let c = cell_text(grid, row, f, ascii, hl);
        assert(row_cells(grid, row, ascii, flip, hl, k) == prev + c);
        assert forall|j: int| 0 <= j < c.len() implies c[j] != '\n' by {
            let glyph = spec_cell_glyph(ch, ascii);
            assert forall|m: int| 0 <= m < glyph.len() implies glyph[m] != '\n' by {}
        }
        assert forall|j: int| 0 <= j < (prev + c).len() implies (prev + c)[j] != '\n' by {
            if j >= prev.len() {
                assert((prev + c)[j] == c[j - prev.len()]);
            }
        }
    }
}

/// The rendered board is the file-label line, the eight rank lines in
/// display order, and the file-label line again. The label line is
/// `  a b c d e f g h ` (reversed when flipped); the rank line of board row
/// `r` starts with its rank digit and a space and ends with a space, the
/// digit again and the line break. Unless an all-blank FEN puts a line
/// break on the board in ASCII mode, a rank line holds no other line break,
/// so the text is ten lines.
pub proof fn law_board_shape(fen: Seq<char>, opts: RenderOptions)
    ensures
        ({
            let grid = placement_grid(placement_field(fen));
            let hl = highlight_cells(opts);
            &&& spec_render(fen, opts) == labels_line(opts.flip) + rows_text(
                grid,
                opts.ascii,
                opts.flip,
                hl,
                8,
            ) + labels_line(opts.flip)
            &&& labels_line(false) == "  a b c d e f g h \n"@
            &&& labels_line(true) == "  h g f e d c b a \n"@
            &&& forall|r: int|
                0 <= r < 8 ==> {
                    let line = #[trigger] row_line(grid, r, opts.ascii, opts.flip, hl);
                    &&& line.subrange(0, 2) == seq![rank_digit(r), ' ']
                    &&& line.subrange(line.len() - 3, line.len() as int) == seq![
                        ' ',
                        rank_digit(r),
                        '\n',
                    ]
                    &&& (forall|j: int| 0 <= j < 64 ==> !glyph_breaks(#[trigger] grid[j], opts.ascii))
                        ==> forall|j: int| 0 <= j < line.len() - 1 ==> #[trigger] line[j] != '\n'
                }
        }),
{
    reveal_strlit("  a b c d e f g h \n");
    reveal_strlit("  h g f e d c b a \n");
    let grid = placement_grid(placement_field(fen));
    let hl = highlight_cells(opts);
    law_grid_has_64_cells(placement_field(fen));
    assert(labels_line(false) =~= "  a b c d e f g h \n"@) by {
        reveal_with_fuel(label_cells, 9);
    }
    assert(labels_line(true) =~= "  h g f e d c b a \n"@) by {
        reveal_with_fuel(label_cells, 9);
    }
    assert forall|r: int| 0 <= r < 8 implies {
        let line = #[trigger] row_line(grid, r, opts.ascii, opts.flip, hl);
        &&& line.subrange(0, 2) == seq![rank_digit(r), ' ']
        &&& line.subrange(line.len() - 3, line.len() as int) == seq![' ', rank_digit(r), '\n']
        &&& (forall|j: int| 0 <= j < 64 ==> !glyph_breaks(#[trigger] grid[j], opts.ascii))
            ==> forall|j: int| 0 <= j < line.len() - 1 ==> #[trigger] line[j] != '\n'
    } by {
        let cells = row_cells(grid, r, opts.ascii, opts.flip, hl, 8);
        let line = row_line(grid, r, opts.ascii, opts.flip, hl);
        assert(line == seq![rank_digit(r), ' '] + cells + seq![rank_digit(r), '\n']);
        if forall|j: int| 0 <= j < 64 ==> !glyph_breaks(#[trigger] grid[j], opts.ascii) {
            lemma_row_cells(grid, r, opts.ascii, opts.flip, hl, 8);
            assert forall|j: int| 0 <= j < line.len() - 1 implies #[trigger] line[j] != '\n' by {
                if 2 <= j < 2 + cells.len() {
                    assert(line[j] == cells[j - 2]);
                }
            }
        }
        assert(cells.len() > 0) by {
            assert(cells == row_cells(grid, r, opts.ascii, opts.flip, hl, 7) + cell_text(
                grid,
                r,
                oriented(opts.flip, 7),
                opts.ascii,
                hl,
            ));
        }
        assert(line.subrange(0, 2) =~= seq![rank_digit(r), ' ']);
        assert(cells.last() == ' ') by {
            let f = oriented(opts.flip, 7);
            let c = cell_text(grid, r, f, opts.ascii, hl);
            assert(cells == row_cells(grid, r, opts.ascii, opts.flip, hl, 7) + c);
        }
        assert(line.subrange(line.len() - 3, line.len() as int) =~= seq![' ', rank_digit(r), '\n']);
    }
}

} // verus!
