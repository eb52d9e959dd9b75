use chess_tutor::position::{Color, Position};
use chess_tutor::threats_view::pins_of;

#[test]
fn rook_pins_knight_to_king() {
    // Black rook e8 pins the white knight on e2 to the king on e1.
    let pos = Position::from_fen("4rk2/8/8/8/8/8/4N3/4K3 w - - 0 1").unwrap();
    assert_eq!(pins_of(&pos, Color::White), vec![(12, 60, 4, true)]);
    assert!(pins_of(&pos, Color::Black).is_empty());
}

#[test]
fn bishop_relatively_pinned_to_queen() {
    // Re1 pins the black bishop e5 to the queen on e6.
    let pos =
        Position::from_fen("1r4nr/p3k3/4qpp1/4b2p/2Q5/8/PPPP1PPP/R1B1R1K1 w - - 0 1").unwrap();
    let pins = pins_of(&pos, Color::Black);
    assert!(pins.contains(&(36, 4, 44, false)));
    assert!(pins.iter().all(|p| !p.3));
}

#[test]
fn two_blockers_make_no_pin() {
    let pos = Position::from_fen("4rk2/8/8/8/8/4B3/4N3/4K3 w - - 0 1").unwrap();
    assert!(pins_of(&pos, Color::White).is_empty());
}

#[test]
fn startpos_has_no_pins() {
    let pos = Position::from_fen("rnbqkbnr/pppppppp/8/8/8/8/PPPPPPPP/RNBQKBNR w KQkq - 0 1").unwrap();
    assert!(pins_of(&pos, Color::White).is_empty());
    assert!(pins_of(&pos, Color::Black).is_empty());
}
