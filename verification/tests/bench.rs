use std::collections::HashSet;

use chess_tutor::bench::parse_position_indices;
use chess_tutor::noise_bench::round_up;

fn set(v: &[usize]) -> HashSet<usize> {
    v.iter().copied().collect()
}

#[test]
fn position_lists_with_ranges_and_blanks() {
    assert_eq!(parse_position_indices("1,8,20-22").unwrap(), set(&[1, 8, 20, 21, 22]));
    assert_eq!(parse_position_indices(" 3 , , 3,4 - 5 ").unwrap(), set(&[3, 4, 5]));
    assert_eq!(parse_position_indices("+7").unwrap(), set(&[7]));
}

#[test]
fn position_list_errors() {
    assert_eq!(
        parse_position_indices("0").unwrap_err(),
        "bench: position indices are 1-based; got 0"
    );
    assert_eq!(parse_position_indices("x").unwrap_err(), "bench: bad position index \"x\"");
    assert_eq!(parse_position_indices("5-2").unwrap_err(), "bench: bad position range \"5-2\"");
    assert_eq!(parse_position_indices("0-2").unwrap_err(), "bench: bad position range \"0-2\"");
    assert_eq!(parse_position_indices("1-x").unwrap_err(), "bench: bad position range \"1-x\"");
    assert_eq!(
        parse_position_indices(" , ").unwrap_err(),
        "bench: --positions argument matched no indices"
    );
    assert_eq!(
        parse_position_indices("2,x,0").unwrap_err(),
        "bench: bad position index \"x\""
    );
}

#[test]
fn thresholds_round_up_to_tens() {
    assert_eq!(round_up(-5), 0);
    assert_eq!(round_up(0), 0);
    assert_eq!(round_up(1), 10);
    assert_eq!(round_up(10), 10);
    assert_eq!(round_up(37), 40);
}

use chess_tutor::bench::file_entries;

#[test]
fn position_file_entries_skip_blanks_and_comments() {
    let body = "# bench positions\n  rnbqkbnr/pppppppp/8/8/8/8/PPPPPPPP/RNBQKBNR w KQkq - 0 1  \r\n\n\t\n8/8/8/8/8/8/8/K6k w - - 0 1 moves a1a2\n#tail";
    assert_eq!(
        file_entries(body),
        vec![
            "rnbqkbnr/pppppppp/8/8/8/8/PPPPPPPP/RNBQKBNR w KQkq - 0 1".to_string(),
            "8/8/8/8/8/8/8/K6k w - - 0 1 moves a1a2".to_string(),
        ]
    );
    assert!(file_entries("").is_empty());
    assert_eq!(file_entries("a\nb\n"), vec!["a".to_string(), "b".to_string()]);
}
