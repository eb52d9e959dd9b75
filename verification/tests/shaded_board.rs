use chess_tutor::position::{Color, Piece, Position, Role};
use chess_tutor::shaded_board::{
    cell_bg, render, BoardCell, BoardView, RenderOptions, DARK_MODE_DARK_SQUARE,
    DARK_MODE_HIGHLIGHT, DARK_MODE_LIGHT_SQUARE, LIGHT_MODE_HIGHLIGHT,
};

const STARTPOS_FEN: &str = "rnbqkbnr/pppppppp/8/8/8/8/PPPPPPPP/RNBQKBNR w KQkq - 0 1";

/// The descriptor of a position: eight rows, top first (rank 8, or rank 1
/// when flipped), squares light when file + rank is odd, the squares in
/// `last` marked.
fn view_of(fen: &str, flipped: bool, last: &[u8]) -> BoardView {
    let pos = Position::from_fen(fen).unwrap();
    let board = pos.setup().board;
    let mut rows = Vec::new();
    for r in 0..8u8 {
        let rank = if flipped { r } else { 7 - r };
        let mut row = Vec::new();
        for f in 0..8u8 {
            let file = if flipped { 7 - f } else { f };
            let sq = rank * 8 + file;
            row.push(BoardCell {
                square: sq,
                piece: board.piece_at(sq),
                is_light: (rank + file) % 2 == 1,
                last_move: last.contains(&sq),
            });
        }
        rows.push(row);
    }
    BoardView { rows }
}

fn startpos_view(flipped: bool) -> BoardView {
    view_of(STARTPOS_FEN, flipped, &[])
}

#[test]
fn dark_mode_default_swaps_filled_and_outlined() {
    let out = render(&startpos_view(false), &RenderOptions::default(), false);
    assert!(out.contains("♛\u{FE0E}"), "white queen should use filled ♛");
    assert!(out.contains("♜\u{FE0E}"), "white rook should use filled ♜");
    assert!(out.contains("♔"), "black king should use outlined ♔");
    assert!(out.contains("♕"), "black queen should use outlined ♕");
    assert!(out.contains("a b c d e f g h"));
}

#[test]
fn light_mode_uses_naming_matching_glyphs() {
    let out = render(
        &startpos_view(false),
        &RenderOptions { light_mode: true, ascii: false },
        false,
    );
    assert!(out.contains("♔\u{FE0E}"), "white king should use outlined ♔");
    assert!(out.contains("♛\u{FE0E}"), "black queen should use filled ♛");
}

#[test]
fn dark_mode_uses_filled_white_pawn_without_emoji_tint() {
    let out = render(&startpos_view(false), &RenderOptions::default(), false);
    assert!(
        out.contains("♟\u{FE0E}"),
        "white pawn should render as the filled U+265F in dark mode"
    );
}

#[test]
fn pawns_use_windows_workaround_regardless_of_mode() {
    for light in [false, true] {
        let out = render(
            &startpos_view(false),
            &RenderOptions { light_mode: light, ascii: false },
            true,
        );
        assert!(
            !out.contains('\u{265F}'),
            "raw U+265F should not appear on Windows (light_mode={light})"
        );
        assert!(
            out.contains("\x1b[90m♙\u{FE0E}\x1b[39m"),
            "expected dim-grey ♙ for black pawn (light_mode={light})"
        );
        assert!(
            out.contains("\x1b[1;97m♙\u{FE0E}\x1b[22;39m"),
            "expected bold bright-white ♙ for white pawn (light_mode={light})"
        );
    }
}

#[test]
fn unicode_mode_has_no_empty_square_marker() {
    let out = render(&startpos_view(false), &RenderOptions::default(), false);
    assert!(
        !out.contains('•') && !out.contains('·'),
        "unicode mode should render empty squares as plain bg colour"
    );
}

#[test]
fn black_pieces_use_dim_grey_fg() {
    let out = render(&startpos_view(false), &RenderOptions::default(), false);
    assert!(
        out.contains("\x1b[90m♖\u{FE0E}\x1b[39m"),
        "black rook should be wrapped in dim-grey SGR"
    );
    assert!(!out.contains("\x1b[90m♜"), "white pieces must not be tinted dim grey");
}

#[test]
fn shaded_renders_startpos_ascii() {
    let out = render(
        &startpos_view(false),
        &RenderOptions { ascii: true, light_mode: false },
        false,
    );
    assert!(out.contains("r n b q k b n r"));
    assert!(out.contains("R N B Q K B N R"));
    assert!(out.contains(". . . . . . . ."));
    assert!(!out.contains("\x1b["), "ASCII mode must not emit any ANSI escapes");
}

#[test]
fn shaded_flip_swaps_perspective() {
    let out = render(&startpos_view(true), &RenderOptions::default(), false);
    let first_line_after_header = out.lines().nth(1).unwrap();
    assert!(first_line_after_header.starts_with("1"));
    assert!(out.contains("h g f e d c b a"));
}

#[test]
fn highlight_uses_amber_bg_not_reverse_video() {
    let view = view_of(
        "rnbqkbnr/pppppppp/8/8/4P3/8/PPPP1PPP/RNBQKBNR b KQkq - 0 1",
        false,
        &[12, 28],
    );
    let out = render(&view, &RenderOptions::default(), false);
    assert!(
        out.contains(&format!("\x1b[48;5;{DARK_MODE_HIGHLIGHT}m")),
        "highlighted cells should use the amber bg, not reverse video"
    );
    assert!(!out.contains("\x1b[7m"), "reverse-video should no longer be in use");
}

#[test]
fn chequered_squares_alternate_backgrounds() {
    let out = render(&startpos_view(false), &RenderOptions::default(), false);
    assert!(
        out.contains(&format!("\x1b[48;5;{DARK_MODE_LIGHT_SQUARE}m")),
        "light-square bg should appear in default (dark-mode) render"
    );
    assert!(
        out.contains(&format!("\x1b[48;5;{DARK_MODE_DARK_SQUARE}m")),
        "dark-square bg should appear in default (dark-mode) render"
    );
}

#[test]
fn a1_is_a_dark_square() {
    let out = render(&startpos_view(false), &RenderOptions::default(), false);
    let rank_1 = out.lines().find(|l| l.starts_with("1 ")).unwrap();
    assert!(
        rank_1.contains(&format!("\x1b[48;5;{DARK_MODE_DARK_SQUARE}m")),
        "rank 1 should include at least one dark-square bg, and a1 is dark"
    );
}

#[test]
fn background_choice_by_square_highlight_and_mode() {
    assert_eq!(cell_bg(true, false, false), 237);
    assert_eq!(cell_bg(false, false, false), 234);
    assert_eq!(cell_bg(false, true, false), 94);
    assert_eq!(cell_bg(true, true, true), LIGHT_MODE_HIGHLIGHT);
    assert_eq!(cell_bg(true, false, true), 254);
    assert_eq!(cell_bg(false, false, true), 250);
}

#[test]
fn one_cell_rendering_is_exact() {
    let mut view = startpos_view(false);
    view.rows[0][0].piece = Some(Piece { color: Color::White, role: Role::King });
    let out = render(&view, &RenderOptions::default(), false);
    let rank_8 = out.lines().nth(1).unwrap();
    assert!(rank_8.starts_with("8 \x1b[48;5;237m♚\u{FE0E} \x1b[49m"), "{rank_8:?}");
}
