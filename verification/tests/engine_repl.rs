use chess_tutor::cli_args::EngineColor;
use chess_tutor::engine_repl::{
    engine_side_line, intro, read_command, resign_reply, toggle_reply, turn_line, undo_reply,
    ReplCommand,
};
use chess_tutor::position::Color;

#[test]
fn prompt_commands_split_verb_and_argument() {
    assert!(matches!(read_command("   "), ReplCommand::Empty));
    assert!(matches!(read_command("exit\n"), ReplCommand::Quit));
    assert!(matches!(read_command("?"), ReplCommand::Help));
    assert!(matches!(read_command("eval"), ReplCommand::Eval));
    match read_command("  analyze   4 80  ") {
        ReplCommand::Analyze(a) => assert_eq!(a, "4 80"),
        _ => panic!("expected analyze"),
    }
    match read_command("search") {
        ReplCommand::Search(a) => assert_eq!(a, ""),
        _ => panic!("expected search"),
    }
    match read_command("explain-best\toff") {
        ReplCommand::ExplainBest(a) => assert_eq!(a, "off"),
        _ => panic!("expected explain-best"),
    }
    match read_command("Nf3 please") {
        ReplCommand::Move(m) => assert_eq!(m, "Nf3"),
        _ => panic!("expected a move"),
    }
}

#[test]
fn prompt_replies() {
    assert_eq!(toggle_reply("retrospective feedback", Some(false), true), "retrospective feedback is now off.\n");
    assert_eq!(toggle_reply("explain-best", None, true), "explain-best is on.\n");
    assert_eq!(undo_reply(0, 0, None, None), "nothing to undo.\n");
    assert_eq!(undo_reply(4, 2, Some("Nf6"), Some("e4")), "undid e4 (and engine's Nf6).\n");
    assert_eq!(undo_reply(3, 1, Some("e5"), Some("e4")), "undid e5.\n");
    assert_eq!(resign_reply(Color::White), "you resigned — black wins.\n");
    assert_eq!(engine_side_line(EngineColor::Neither), "engine is idle; you control both sides.\n");
    assert_eq!(engine_side_line(EngineColor::Black), "engine plays black, you play white.\n");
    assert_eq!(turn_line(12, Color::Black), "move 12: black to move.\n");
    assert!(intro(7).ends_with("opponent seed: 7 (pass --seed 7 to replay this game)\n"));
}
