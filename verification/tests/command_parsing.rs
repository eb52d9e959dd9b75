use chess_tutor::repl_parse::{parse_search_command, parse_toggle};
use chess_tutor::uci_shim::{mix_seed, parse_go_depth};

#[test]
fn play_parse_search_default_to_one() {
    assert_eq!(parse_search_command(""), Ok(1));
    assert_eq!(parse_search_command("   "), Ok(1));
}

#[test]
fn play_parse_search_accepts_n() {
    assert_eq!(parse_search_command("3"), Ok(3));
    assert_eq!(parse_search_command("  5 "), Ok(5));
}

#[test]
fn play_parse_search_rejects_zero() {
    assert!(parse_search_command("0").is_err());
}

#[test]
fn parse_parse_search_default_to_one() {
    assert_eq!(parse_search_command(""), Ok(1));
    assert_eq!(parse_search_command("   "), Ok(1));
}

#[test]
fn parse_parse_search_accepts_n() {
    assert_eq!(parse_search_command("3"), Ok(3));
    assert_eq!(parse_search_command("  5 "), Ok(5));
}

#[test]
fn parse_parse_search_rejects_zero() {
    assert!(parse_search_command("0").is_err());
}

#[test]
fn parse_search_error_texts() {
    assert_eq!(
        parse_search_command("abc"),
        Err("bad count \"abc\"; expected a positive integer".to_string())
    );
    assert_eq!(parse_search_command("0"), Err("count must be at least 1".to_string()));
    assert_eq!(parse_search_command("+7"), Ok(7));
    assert!(parse_search_command("-1").is_err());
}

#[test]
fn parse_toggle_variants() {
    assert_eq!(parse_toggle(""), Ok(None));
    assert_eq!(parse_toggle(" on "), Ok(Some(true)));
    assert_eq!(parse_toggle("true"), Ok(Some(true)));
    assert_eq!(parse_toggle("1"), Ok(Some(true)));
    assert_eq!(parse_toggle("off"), Ok(Some(false)));
    assert_eq!(parse_toggle("false"), Ok(Some(false)));
    assert_eq!(parse_toggle("0"), Ok(Some(false)));
    assert_eq!(
        parse_toggle("maybe"),
        Err("expected 'on' or 'off', got \"maybe\"".to_string())
    );
}

#[test]
fn parse_go_depth_variants() {
    assert_eq!(parse_go_depth("go depth 12"), Some(12));
    assert_eq!(parse_go_depth("go wtime 1000 btime 1000 depth 8"), Some(8));
    assert_eq!(parse_go_depth("go infinite"), None);
    assert_eq!(parse_go_depth("go"), None);
    assert_eq!(parse_go_depth("go depth notanumber"), None);
}

#[test]
fn parse_go_depth_edges() {
    assert_eq!(parse_go_depth("go depth"), None);
    assert_eq!(parse_go_depth("go depth 4294967295"), Some(u32::MAX));
    assert_eq!(parse_go_depth("go depth 4294967296"), None);
    assert_eq!(parse_go_depth("go depth 3 depth 9"), Some(3));
}

#[test]
fn mix_seed_is_deterministic_and_varies_per_game() {
    assert_eq!(mix_seed(42, 0), mix_seed(42, 0), "same inputs → same seed");
    assert_ne!(mix_seed(42, 0), mix_seed(42, 1), "game index changes the seed");
    assert_ne!(mix_seed(1, 5), mix_seed(2, 5), "base seed changes the seed");
}

#[test]
fn mix_seed_exact_value() {
    // SplitMix64 of 0 + 0xD1B5_4A32_D192_ED03 computed by hand.
    let mut x: u64 = 0xD1B5_4A32_D192_ED03;
    x ^= x >> 30;
    x = x.wrapping_mul(0xBF58_476D_1CE4_E5B9);
    x ^= x >> 27;
    x = x.wrapping_mul(0x94D0_49BB_1331_11EB);
    x ^= x >> 31;
    assert_eq!(mix_seed(0, 0), x);
}
