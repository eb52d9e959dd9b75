use chess_tutor::position::Position;
use chess_tutor::threats::{flipped, ThreatScan, ThreatScans, square_name};

fn pos(fen: &str) -> Position {
    Position::from_fen(fen).unwrap()
}

#[test]
fn startpos_has_no_checks_captures_or_threats() {
    let p = pos("rnbqkbnr/pppppppp/8/8/8/8/PPPPPPPP/RNBQKBNR w KQkq - 0 1");
    let scan = ThreatScan::from_position(&p);
    assert!(scan.checks.is_empty());
    assert!(scan.captures.is_empty());
    assert!(scan.threats.is_empty());
}

#[test]
fn fools_mate_check_detected() {
    let p = pos("rnbqkbnr/pppp1ppp/8/4p3/6P1/5P2/PPPPP2P/RNBQKBNR b KQkq g3 0 2");
    let scan = ThreatScan::from_position(&p);
    let qh4 = scan
        .checks
        .iter()
        .find(|m| m.san.starts_with("Qh4"))
        .expect("Qh4 should be detected as a check");
    assert_eq!(qh4.uci, "d8h4");
    assert_eq!(qh4.role, "q");
}

#[test]
fn simple_pawn_capture_listed() {
    let p = pos("4k3/8/8/3p4/2P5/8/8/4K3 w - - 0 1");
    let scan = ThreatScan::from_position(&p);
    assert_eq!(scan.captures.len(), 1);
    let cap = &scan.captures[0];
    assert_eq!(cap.uci, "c4d5");
    assert_eq!(cap.captured.as_deref(), Some("p"));
    assert_eq!(cap.see, 100);
    assert!(!cap.gives_check);
}

#[test]
fn pawn_fork_is_a_threat() {
    let p = pos("4k3/8/8/2r1n3/8/3P4/8/4K3 w - - 0 1");
    let scan = ThreatScan::from_position(&p);
    let fork = scan
        .threats
        .iter()
        .find(|m| m.uci == "d3d4")
        .expect("d3-d4 should register as a threat");
    assert_eq!(fork.role, "p");
    assert!(fork.captured.is_none());
    assert!(!fork.gives_check);
    assert!(fork.threatens.iter().any(|s| s == "c5"));
    assert!(fork.threatens.iter().any(|s| s == "e5"));
}

#[test]
fn checking_capture_appears_in_both_lists() {
    let p = pos("k6r/8/8/8/8/8/8/4K2R w K - 0 1");
    let scan = ThreatScan::from_position(&p);
    assert!(scan.captures.iter().any(|m| m.uci == "h1h8"));
    assert!(scan.checks.iter().any(|m| m.uci == "h1h8"));
}

#[test]
fn both_sides_scans_the_opponent_too() {
    let p = pos("r1bqkb1r/pppp1ppp/2n2n2/4p3/4P3/2N2N2/PPPP1PPP/R1BQKB1R w KQkq - 4 4");
    let scans = ThreatScans::from_position(&p);
    assert_eq!(scans.mover.side, "white");
    let opponent = scans
        .opponent
        .expect("flip is legal when neither side is in check");
    assert_eq!(opponent.side, "black");
    assert!(scans.mover.captures.iter().any(|m| m.to == "e5"));
    assert!(opponent.captures.iter().any(|m| m.to == "e4"));
}

#[test]
fn flipped_fails_when_mover_in_check() {
    let p = pos("4r3/8/8/8/7k/8/8/4K3 w - - 0 1");
    let scans = ThreatScans::from_position(&p);
    assert!(scans.opponent.is_none());
}

#[test]
fn flip_swaps_side_and_clears_en_passant() {
    let p = pos("4k3/8/8/3pP3/8/8/8/4K3 w - d6 0 1");
    let f = flipped(&p).unwrap();
    assert_eq!(f.fen(), "4k3/8/8/3pP3/8/8/8/4K3 b - - 0 1");
}

#[test]
fn square_names() {
    assert_eq!(square_name(0), "a1");
    assert_eq!(square_name(28), "e4");
    assert_eq!(square_name(63), "h8");
}

#[test]
fn threat_list_excludes_captures_and_checks() {
    let p = pos("4k3/8/8/2r1n3/8/3P4/8/R3K3 w - - 0 1");
    let scan = ThreatScan::from_position(&p);
    for t in &scan.threats {
        assert!(t.captured.is_none());
        assert!(!t.gives_check);
        assert!(!t.threatens.is_empty());
        assert!(scan.captures.iter().all(|c| c.uci != t.uci));
        assert!(scan.checks.iter().all(|c| c.uci != t.uci));
    }
    for c in &scan.captures {
        assert!(c.captured.is_some());
    }
    for c in &scan.checks {
        assert!(c.gives_check);
    }
    assert!(scan.checks.iter().any(|m| m.uci == "a1a8"));
}
