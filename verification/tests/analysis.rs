use chess_tutor::analysis::AttackMap;
use chess_tutor::position::{Color, Position};
use chess_tutor::{analyze, ANALYSIS_SCHEMA_VERSION};

fn pos(fen: &str) -> Position {
    Position::from_fen(fen).unwrap()
}

fn sq(name: &str) -> u8 {
    let b = name.as_bytes();
    (b[1] - b'1') * 8 + (b[0] - b'a')
}

#[test]
fn startpos_pawn_wall_attack_counts() {
    // e3 is covered by the pawns on d2 and f2 only: the knight on g1
    // reaches e2, f3 and h3.
    let p = pos("rnbqkbnr/pppppppp/8/8/8/8/PPPPPPPP/RNBQKBNR w KQkq - 0 1");
    let am = AttackMap::from_position(&p);
    assert_eq!(am.count(sq("e3"), Color::White), 2);
    assert_eq!(am.count(sq("f3"), Color::White), 3);
    assert_eq!(am.count(sq("e3"), Color::Black), 0);
    assert_eq!(am.count(sq("a3"), Color::White), 2);
}

#[test]
fn hanging_piece_detected() {
    let p = pos("8/8/2p5/3P4/8/8/8/4K2k w - - 0 1");
    let am = AttackMap::from_position(&p);
    assert!(am.is_hanging(&p.setup().board, sq("d5")));
}

#[test]
fn defended_piece_not_hanging() {
    let p = pos("8/8/2p5/3P4/4P3/8/8/4K2k w - - 0 1");
    let am = AttackMap::from_position(&p);
    assert!(!am.is_hanging(&p.setup().board, sq("d5")));
}

#[test]
fn king_is_never_hanging() {
    let p = pos("4k3/8/8/8/8/8/8/r3K3 w - - 0 1");
    let am = AttackMap::from_position(&p);
    assert!(!am.is_hanging(&p.setup().board, sq("e1")));
}

#[test]
fn attacker_bitboard_lists_source_squares() {
    let p = pos("4k3/8/8/3p4/8/2N5/8/4K3 w - - 0 1");
    let am = AttackMap::from_position(&p);
    assert_eq!(am.attackers(sq("e4"), Color::White), 1u64 << sq("c3"));
    assert_eq!(am.attackers(sq("e4"), Color::Black), 1u64 << sq("d5"));
}

#[test]
fn analyze_accepts_startpos() {
    let fen = "rnbqkbnr/pppppppp/8/8/8/8/PPPPPPPP/RNBQKBNR w KQkq - 0 1";
    let report = analyze(fen).expect("startpos should parse");
    assert_eq!(report.fen, fen);
    assert_eq!(report.schema_version, ANALYSIS_SCHEMA_VERSION);
}

#[test]
fn analyze_rejects_garbage_fen() {
    assert!(analyze("not a fen").is_err());
}

#[test]
fn analyze_fills_square_counts() {
    let report = analyze("rnbqkbnr/pppppppp/8/8/8/8/PPPPPPPP/RNBQKBNR w KQkq - 0 1").unwrap();
    assert_eq!(report.square_data.squares.len(), 64);
    let e3 = report.square_data.squares[sq("e3") as usize];
    assert_eq!((e3.white_attackers, e3.black_attackers, e3.see), (2, 0, None));
    let f6 = report.square_data.squares[sq("f6") as usize];
    assert_eq!((f6.white_attackers, f6.black_attackers), (0, 3));
}
