use chess_tutor::board_render::{render, RenderOptions};

const STARTPOS: &str = "rnbqkbnr/pppppppp/8/8/8/8/PPPPPPPP/RNBQKBNR w KQkq - 0 1";

#[test]
fn renders_startpos_unicode() {
    let out = render(STARTPOS, &RenderOptions::default());
    assert!(out.contains("♜\u{FE0E}"));
    assert!(out.contains("♟\u{FE0E}"));
    assert!(out.contains("♔\u{FE0E}"));
    assert!(out.contains("♙\u{FE0E}"));
    assert!(out.contains("a b c d e f g h"));
}

#[test]
fn black_pawn_has_text_presentation_selector() {
    let out = render(STARTPOS, &RenderOptions::default());
    assert!(
        out.contains("♟\u{FE0E}"),
        "black pawn should be rendered with VS15 to avoid emoji presentation"
    );
}

#[test]
fn board_renders_startpos_ascii() {
    let out = render(
        STARTPOS,
        &RenderOptions {
            ascii: true,
            ..Default::default()
        },
    );
    assert!(out.contains("r n b q k b n r"));
    assert!(out.contains("R N B Q K B N R"));
    assert!(out.contains(". . . . . . . ."));
}

#[test]
fn board_flip_swaps_perspective() {
    let out = render(
        STARTPOS,
        &RenderOptions {
            flip: true,
            ..Default::default()
        },
    );
    let first_line_after_header = out.lines().nth(1).unwrap();
    assert!(first_line_after_header.starts_with("1"));
    assert!(out.contains("h g f e d c b a"));
}

#[test]
fn highlight_wraps_from_and_to_in_escape() {
    let out = render(
        "rnbqkbnr/pppppppp/8/8/4P3/8/PPPP1PPP/RNBQKBNR b KQkq e3 0 1",
        &RenderOptions {
            highlight: Some(("e2".into(), "e4".into())),
            ..Default::default()
        },
    );
    assert!(out.contains("\x1b[7m"));
    assert!(out.contains("\x1b[0m"));
}

#[test]
fn ascii_startpos_renders_exact_layout() {
    let out = render(
        STARTPOS,
        &RenderOptions {
            ascii: true,
            ..Default::default()
        },
    );
    let expected = [
        "  a b c d e f g h \n",
        "8 r n b q k b n r 8\n",
        "7 p p p p p p p p 7\n",
        "6 . . . . . . . . 6\n",
        "5 . . . . . . . . 5\n",
        "4 . . . . . . . . 4\n",
        "3 . . . . . . . . 3\n",
        "2 P P P P P P P P 2\n",
        "1 R N B Q K B N R 1\n",
        "  a b c d e f g h \n",
    ]
    .join("");
    assert_eq!(out, expected);
}

#[test]
fn invalid_highlight_square_highlights_nothing() {
    let out = render(
        STARTPOS,
        &RenderOptions {
            highlight: Some(("e2".into(), "z9".into())),
            ..Default::default()
        },
    );
    assert!(!out.contains("\x1b[7m"));
}

#[test]
fn unknown_letter_renders_question_mark() {
    let out = render("x7/8/8/8/8/8/8/8 w - - 0 1", &RenderOptions::default());
    assert!(out.lines().nth(1).unwrap().starts_with("8 ? "));
}

#[test]
fn any_placement_renders_ten_labelled_lines() {
    for fen in ["", "pppppppppppp/9/9", "/////////////", "x"] {
        for flip in [false, true] {
            let out = render(
                fen,
                &RenderOptions { ascii: true, flip, highlight: Some(("e".into(), "e10".into())) },
            );
            assert!(out.ends_with('\n'));
            let lines: Vec<&str> = out.lines().collect();
            assert_eq!(lines.len(), 10);
            assert_eq!(lines[0], lines[9]);
            let labels = if flip { "  h g f e d c b a " } else { "  a b c d e f g h " };
            assert_eq!(lines[0], labels);
            for i in 1..=8 {
                let k = if flip { i } else { 9 - i };
                assert!(lines[i].starts_with(&format!("{k} ")));
                assert!(lines[i].ends_with(&format!(" {k}")));
            }
            assert!(!out.contains("\x1b[7m"));
        }
    }
}

#[test]
fn overflowing_placement_characters_are_dropped() {
    let out = render("pppppppppppp/9/9", &RenderOptions { ascii: true, ..Default::default() });
    let lines: Vec<&str> = out.lines().collect();
    assert_eq!(lines[1], "8 p p p p p p p p 8");
    assert_eq!(lines[2], "7 9 . . . . . . . 7");
    assert_eq!(lines[3], "6 9 . . . . . . . 6");
}
