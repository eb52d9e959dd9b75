use chess_tutor::piece_fmt::{color_name, piece_label, piece_letter, piece_type_name};
use chess_tutor::position::{Color, Piece, Role};

fn white(role: Role) -> Piece {
    Piece { color: Color::White, role }
}

fn black(role: Role) -> Piece {
    Piece { color: Color::Black, role }
}

fn sq(name: &str) -> u8 {
    let b = name.as_bytes();
    (b[1] - b'1') * 8 + (b[0] - b'a')
}

#[test]
fn white_pieces_take_uppercase_letters() {
    assert_eq!(piece_letter(white(Role::Knight)), 'N');
    assert_eq!(piece_letter(white(Role::King)), 'K');
    assert_eq!(piece_letter(white(Role::Queen)), 'Q');
    assert_eq!(piece_letter(white(Role::Rook)), 'R');
    assert_eq!(piece_letter(white(Role::Bishop)), 'B');
    assert_eq!(piece_letter(white(Role::Pawn)), 'P');
}

#[test]
fn black_pieces_take_lowercase_letters() {
    assert_eq!(piece_letter(black(Role::Knight)), 'n');
    assert_eq!(piece_letter(black(Role::Queen)), 'q');
}

#[test]
fn piece_label_encodes_colour_in_case() {
    assert_eq!(piece_label(white(Role::King), sq("e1")), "Ke1");
    assert_eq!(piece_label(black(Role::Queen), sq("d8")), "qd8");
    assert_eq!(piece_label(white(Role::Knight), sq("f3")), "Nf3");
}

#[test]
fn piece_type_name_is_lowercase() {
    assert_eq!(piece_type_name(Role::Rook), "rook");
    assert_eq!(piece_type_name(Role::Pawn), "pawn");
}

#[test]
fn color_name_capitalises() {
    assert_eq!(color_name(Color::White), "White");
    assert_eq!(color_name(Color::Black), "Black");
}
