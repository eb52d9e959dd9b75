use chess_tutor::position::{Color, Position};
use chess_tutor::see::{piece_value, see, see_on_square};
use chess_tutor::position::Role;

fn pos(fen: &str) -> Position {
    Position::from_fen(fen).unwrap()
}

/// Square index from its name, a1 = 0 .. h8 = 63.
fn sq(name: &str) -> u8 {
    let b = name.as_bytes();
    (b[1] - b'1') * 8 + (b[0] - b'a')
}

#[test]
fn quiet_move_is_zero() {
    let p = pos("4k3/8/8/8/8/8/4P3/4K3 w - - 0 1");
    assert_eq!(see(&p, sq("e2"), sq("e3")), 0);
}

#[test]
fn free_pawn_gain() {
    let p = pos("4k3/8/8/3p4/2P5/8/8/4K3 w - - 0 1");
    assert_eq!(see(&p, sq("c4"), sq("d5")), 100);
}

#[test]
fn equal_pawn_trade() {
    let p = pos("4k3/8/4p3/3p4/2P5/8/8/4K3 w - - 0 1");
    assert_eq!(see(&p, sq("c4"), sq("d5")), 0);
}

#[test]
fn queen_takes_defended_pawn_loses() {
    let p = pos("4k3/8/4p3/3p4/8/8/8/3QK3 w - - 0 1");
    assert_eq!(see(&p, sq("d1"), sq("d5")), 100 - 900);
}

#[test]
fn knight_takes_defended_pawn_loses() {
    let p = pos("4k3/8/4p3/3p4/8/8/8/3NK3 w - - 0 1");
    assert_eq!(see(&p, sq("d1"), sq("d5")), 100 - 300);
}

#[test]
fn rook_battery_x_ray() {
    let p = pos("r3k3/p7/8/8/8/8/R7/R3K3 w - - 0 1");
    assert_eq!(see(&p, sq("a2"), sq("a7")), 100);
}

#[test]
fn bishop_behind_bishop_x_ray() {
    let p = pos("4k3/8/8/8/3p4/2p5/1B6/B3K3 w - - 0 1");
    assert_eq!(see(&p, sq("b2"), sq("c3")), -120);
}

#[test]
fn king_cannot_recapture_into_check() {
    let p = pos("8/8/8/8/2k5/2p5/1B6/2R1K3 w - - 0 1");
    assert_eq!(see(&p, sq("b2"), sq("c3")), 100);
}

#[test]
fn see_on_square_picks_least_valuable_attacker() {
    let p = pos("4k3/8/8/3p4/2P5/8/8/3QK3 w - - 0 1");
    assert_eq!(see_on_square(&p, sq("d5"), Color::White), Some(100));
}

#[test]
fn see_on_square_none_without_attackers() {
    let p = pos("4k3/8/8/3p4/8/8/8/4K3 w - - 0 1");
    assert_eq!(see_on_square(&p, sq("d5"), Color::White), None);
}

#[test]
fn en_passant_gain() {
    let p = pos("4k3/8/8/3pP3/8/8/8/4K3 w - d6 0 1");
    assert_eq!(see(&p, sq("e5"), sq("d6")), 100);
}

#[test]
fn piece_values_follow_the_exchange_chart() {
    assert_eq!(piece_value(Role::Pawn), 100);
    assert_eq!(piece_value(Role::Knight), 300);
    assert_eq!(piece_value(Role::Bishop), 320);
    assert_eq!(piece_value(Role::Rook), 500);
    assert_eq!(piece_value(Role::Queen), 900);
    assert_eq!(piece_value(Role::King), 10_000);
}

#[test]
fn see_stays_between_victim_minus_attacker_and_victim() {
    // Qxd5 against a pawn defended once: the bound t - v <= see <= t.
    let p = pos("4k3/8/4p3/3p4/8/8/8/3QK3 w - - 0 1");
    let v = see(&p, sq("d1"), sq("d5"));
    assert!(v >= 100 - 900 && v <= 100);
}
