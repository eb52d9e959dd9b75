use chess_tutor::inspect::{
    attackers_report, describe_sources, hanging_report, parse_inspect_target, parse_square,
    pluralise, see_report,
};
use chess_tutor::piece_fmt::{piece_letter, role_letter};
use chess_tutor::position::{Color, Piece, Position, Role};

fn pos(fen: &str) -> Position {
    Position::from_fen(fen).unwrap()
}

#[test]
fn square_parsing() {
    assert_eq!(parse_square("a1"), Some(0));
    assert_eq!(parse_square("h8"), Some(63));
    assert_eq!(parse_square("e4"), Some(28));
    assert_eq!(parse_square("i1"), None);
    assert_eq!(parse_square("e9"), None);
    assert_eq!(parse_square("e44"), None);
    assert_eq!(parse_square(""), None);
}

#[test]
fn letters_and_plurals() {
    assert_eq!(role_letter(Role::Knight), 'N');
    assert_eq!(piece_letter(Piece { color: Color::White, role: Role::Queen }), 'Q');
    assert_eq!(piece_letter(Piece { color: Color::Black, role: Role::Queen }), 'q');
    assert_eq!(pluralise(1), "");
    assert_eq!(pluralise(0), "s");
    assert_eq!(pluralise(2), "s");
}

#[test]
fn inspect_targets_by_square_or_letter() {
    let p = pos("rnbqkbnr/pppppppp/8/8/8/8/PPPPPPPP/RNBQKBNR w KQkq - 0 1");
    let b = &p.setup().board;
    assert_eq!(parse_inspect_target(" e4 ", b), Some(vec![28]));
    assert_eq!(parse_inspect_target("N", b), Some(vec![1, 6]));
    assert_eq!(parse_inspect_target("k", b), Some(vec![60]));
    assert_eq!(parse_inspect_target("x", b), None);
    assert_eq!(parse_inspect_target("e4e5", b), None);
    let bare = pos("4k3/8/8/8/8/8/8/4K3 w - - 0 1");
    assert_eq!(parse_inspect_target("Q", &bare.setup().board), Some(vec![]));
}

#[test]
fn attacker_listing_names_pieces_and_pawns() {
    let p = pos("4k3/8/8/3p4/8/2N5/8/4K3 w - - 0 1");
    assert_eq!(attackers_report(&p, "e4"), "e4:\n  White: Nc3\n  Black: d5\n");
    assert_eq!(describe_sources(&p.setup().board, 0), "—");
    assert_eq!(
        attackers_report(&pos("4k3/8/8/8/8/8/8/4K3 w - - 0 1"), "Q"),
        "no pieces of that type on the board.\n"
    );
}

#[test]
fn hanging_pieces_are_listed_in_square_order() {
    let p = pos("8/8/2p5/3P4/8/8/8/4K2k w - - 0 1");
    assert_eq!(
        hanging_report(&p),
        "hanging pieces (2):\n  d5 P — 1 attacker vs 0 defenders\n  c6 p — 1 attacker vs 0 defenders\n"
    );
    let defended = pos("8/8/2p5/3P4/4P3/8/8/4K2k w - - 0 1");
    assert_eq!(
        hanging_report(&defended),
        "hanging pieces (1):\n  c6 p — 1 attacker vs 0 defenders\n"
    );
}

#[test]
fn see_report_for_each_side() {
    let p = pos("8/8/2p5/3P4/8/8/8/4K2k w - - 0 1");
    assert_eq!(see_report(&p, "d5"), "d5 (P):\n  White: no attacker\n  Black: +100 cp\n");
    assert_eq!(see_report(&p, "d9"), "unrecognised square 'd9'. Try e.g. `see e5`.\n");
}
