//! The engine game prompt's decisions that need no engine: how a command
//! line splits into a verb and its argument and which command it is, and
//! the texts of the prompt's own replies (toggles, take-backs, resigning,
//! who the engine plays).

use vstd::prelude::*;

use crate::cli_args::EngineColor;
use crate::position::Color;
use crate::text::{
    chars_of, decimal, push_decimal, push_str, same_chars, slice_of, spec_trim, string_of,
    token_end, trim,
};

verus! {

/// A command line of the engine game prompt.
#[derive(Debug, Clone)]
pub enum ReplCommand {
    /// A blank line.
    Empty,
    /// `quit` or `exit`.
    Quit,
    /// `help` or `?`.
    Help,
    Moves,
    Eval,
    Fen,
    Flip,
    Undo,
    Resign,
    /// `search` and its argument.
    Search(String),
    /// `analyze` and its argument.
    Analyze(String),
    /// `retrospect` and its argument.
    Retrospect(String),
    /// `explain-best` and its argument.
    ExplainBest(String),
    /// `openings` and its argument.
    Openings(String),
    /// `eval-mask` and its argument.
    EvalMask(String),
    /// `noise` and its argument.
    Noise(String),
    /// Anything else: the first word, read as a move.
    Move(String),
}

/// The verb (up to the first whitespace) and the trimmed argument of a
/// trimmed command line.
pub open spec fn verb_and_arg(t: Seq<char>) -> (Seq<char>, Seq<char>) {
    let k = token_end(t, 0);
    (t.subrange(0, k), spec_trim(t.subrange(k, t.len() as int)))
}

/// `c` is the command the line `line` reads as.
pub open spec fn reads_as(line: Seq<char>, c: ReplCommand) -> bool {
    let t = spec_trim(line);
    let (v, a) = verb_and_arg(t);
    if t.len() == 0 {
        c is Empty
    } else if v == "quit"@ {
        c is Quit
    } else if v == "exit"@ {
        c is Quit
    } else if v == "help"@ {
        c is Help
    } else if v == "?"@ {
        c is Help
    } else if v == "moves"@ {
        c is Moves
    } else if v == "eval"@ {
        c is Eval
    } else if v == "fen"@ {
        c is Fen
    } else if v == "flip"@ {
        c is Flip
    } else if v == "undo"@ {
        c is Undo
    } else if v == "resign"@ {
        c is Resign
    } else if v == "search"@ {
        c matches ReplCommand::Search(x) && x@ == a
    } else if v == "analyze"@ {
        c matches ReplCommand::Analyze(x) && x@ == a
    } else if v == "retrospect"@ {
        c matches ReplCommand::Retrospect(x) && x@ == a
    } else if v == "explain-best"@ {
        c matches ReplCommand::ExplainBest(x) && x@ == a
    } else if v == "openings"@ {
        c matches ReplCommand::Openings(x) && x@ == a
    } else if v == "eval-mask"@ {
        c matches ReplCommand::EvalMask(x) && x@ == a
    } else if v == "noise"@ {
        c matches ReplCommand::Noise(x) && x@ == a
    } else {
        c matches ReplCommand::Move(m) && m@ == v
    }
}

/// Read a command line of the engine game prompt.
pub fn read_command(line: &str) -> (r: ReplCommand)
    ensures
        reads_as(line@, r),
{
    let t = trim(&chars_of(line));
    if t.len() == 0 {
        return ReplCommand::Empty;
    }
    let n = t.len();
    let mut k: usize = 0;
    while k < n && !crate::text::is_whitespace(t[k])
        invariant
            k <= n,
            n == t@.len(),
            token_end(t@, 0) == token_end(t@, k as int),
        decreases n - k,
    {
        k = k + 1;
    }
    let v = slice_of(&t, 0, k);
    let a = string_of(&trim(&slice_of(&t, k, n)));
    if same_chars(&v, "quit") {
        ReplCommand::Quit
    } else if same_chars(&v, "exit") {
        ReplCommand::Quit
    } else if same_chars(&v, "help") {
        ReplCommand::Help
    } else if same_chars(&v, "?") {
        ReplCommand::Help
    } else if same_chars(&v, "moves") {
        ReplCommand::Moves
    } else if same_chars(&v, "eval") {
        ReplCommand::Eval
    } else if same_chars(&v, "fen") {
        ReplCommand::Fen
    } else if same_chars(&v, "flip") {
        ReplCommand::Flip
    } else if same_chars(&v, "undo") {
        ReplCommand::Undo
    } else if same_chars(&v, "resign") {
        ReplCommand::Resign
    } else if same_chars(&v, "search") {
        ReplCommand::Search(a)
    } else if same_chars(&v, "analyze") {
        ReplCommand::Analyze(a)
    } else if same_chars(&v, "retrospect") {
        ReplCommand::Retrospect(a)
    } else if same_chars(&v, "explain-best") {
        ReplCommand::ExplainBest(a)
    } else if same_chars(&v, "openings") {
        ReplCommand::Openings(a)
    } else if same_chars(&v, "eval-mask") {
        ReplCommand::EvalMask(a)
    } else if same_chars(&v, "noise") {
        ReplCommand::Noise(a)
    } else {
        ReplCommand::Move(string_of(&v))
    }
}

/// `on` or `off`.
pub open spec fn on_off(b: bool) -> Seq<char> {
    if b {
        "on"@
    } else {
        "off"@
    }
}

/// The reply to a toggle command (`retrospect`, `explain-best`) that read
/// as `change`: the new setting when it changes one, the current one when
/// it only asks.
pub open spec fn toggle_text(name: Seq<char>, change: Option<bool>, current: bool) -> Seq<char> {
    match change {
        Some(on) => name + " is now "@ + on_off(on) + ".\n"@,
        None => name + " is "@ + on_off(current) + ".\n"@,
    }
}

fn push_on_off(out: &mut String, b: bool)
    ensures
        final(out)@ == old(out)@ + on_off(b),
{
    if b {
        push_str(out, "on");
    } else {
        push_str(out, "off");
    }
}

/// The reply to a toggle command.
pub fn toggle_reply(name: &str, change: Option<bool>, current: bool) -> (r: String)
    ensures
        r@ == toggle_text(name@, change, current),
{
    let mut out = String::new();
    push_str(&mut out, name);
    match change {
        Some(on) => {
            push_str(&mut out, " is now ");
            push_on_off(&mut out, on);
        },
        None => {
            push_str(&mut out, " is ");
            push_on_off(&mut out, current);
        },
    }
    push_str(&mut out, ".\n");
    proof {
        assert(out@ =~= toggle_text(name@, change, current));
    }
    out
}

/// The reply to `undo` after a take-back that removed `rewound` plies:
/// both moves named when it took back the engine's reply too.
pub open spec fn undo_text(rewound: usize, last: Option<Seq<char>>, prev: Option<Seq<char>>) -> Seq<char> {
    if rewound == 2 && last is Some && prev is Some {
        "undid "@ + prev.unwrap() + " (and engine's "@ + last.unwrap() + ").\n"@
    } else if last is Some {
        "undid "@ + last.unwrap() + ".\n"@
    } else {
        "undid.\n"@
    }
}

pub open spec fn opt_view(s: Option<&str>) -> Option<Seq<char>> {
    match s {
        Some(t) => Some(t@),
        None => None,
    }
}

/// The reply to `undo`: `nothing to undo.` with no move played, otherwise
/// what the take-back removed.
pub fn undo_reply(played: usize, rewound: usize, last: Option<&str>, prev: Option<&str>) -> (r: String)
    ensures
        r@ == if played == 0 {
            "nothing to undo.\n"@
        } else {
            undo_text(rewound, opt_view(last), opt_view(prev))
        },
{
    let mut out = String::new();
    if played == 0 {
        push_str(&mut out, "nothing to undo.\n");
        return out;
    }
    match (last, prev) {
        (Some(l), Some(p)) if rewound == 2 => {
            push_str(&mut out, "undid ");
            push_str(&mut out, p);
            push_str(&mut out, " (and engine's ");
            push_str(&mut out, l);
            push_str(&mut out, ").\n");
        },
        (Some(l), _) => {
            push_str(&mut out, "undid ");
            push_str(&mut out, l);
            push_str(&mut out, ".\n");
        },
        _ => push_str(&mut out, "undid.\n"),
    }
    proof {
        assert(out@ =~= undo_text(rewound, opt_view(last), opt_view(prev)));
    }
    out
}

/// A colour's name in lower case.
pub open spec fn lower_name(c: Color) -> Seq<char> {
    match c {
        Color::White => "white"@,
        Color::Black => "black"@,
    }
}

fn push_lower_name(out: &mut String, c: Color)
    ensures
        final(out)@ == old(out)@ + lower_name(c),
{
    match c {
        Color::White => push_str(out, "white"),
        Color::Black => push_str(out, "black"),
    }
}

/// The reply to `resign`: the other side wins.
pub open spec fn resign_text(mover: Color) -> Seq<char> {
    "you resigned — "@ + lower_name(
        match mover {
            Color::White => Color::Black,
            Color::Black => Color::White,
        },
    ) + " wins.\n"@
}

/// The reply to `resign` by the side to move.
pub fn resign_reply(mover: Color) -> (r: String)
    ensures
        r@ == resign_text(mover),
{
    let mut out = String::new();
    push_str(&mut out, "you resigned — ");
    match mover {
        Color::White => push_lower_name(&mut out, Color::Black),
        Color::Black => push_lower_name(&mut out, Color::White),
    }
    push_str(&mut out, " wins.\n");
    proof {
        assert(out@ =~= resign_text(mover));
    }
    out
}

/// Who the engine plays, as the prompt announces it.
pub open spec fn engine_side_text(c: EngineColor) -> Seq<char> {
    match c {
        EngineColor::White => "engine plays white, you play black.\n"@,
        EngineColor::Black => "engine plays black, you play white.\n"@,
        EngineColor::Both => "engine plays both sides (self-play).\n"@,
        EngineColor::Neither => "engine is idle; you control both sides.\n"@,
    }
}

/// Who the engine plays.
pub fn engine_side_line(c: EngineColor) -> (r: String)
    ensures
        r@ == engine_side_text(c),
{
    let mut out = String::new();
    match c {
        EngineColor::White => push_str(&mut out, "engine plays white, you play black.\n"),
        EngineColor::Black => push_str(&mut out, "engine plays black, you play white.\n"),
        EngineColor::Both => push_str(&mut out, "engine plays both sides (self-play).\n"),
        EngineColor::Neither => push_str(&mut out, "engine is idle; you control both sides.\n"),
    }
    proof {
        assert(out@ =~= engine_side_text(c));
    }
    out
}

/// The prompt's turn line: the move number and who is to move.
pub open spec fn turn_text(fullmove: u32, mover: Color) -> Seq<char> {
    "move "@ + decimal(fullmove as nat) + ": "@ + lower_name(mover) + " to move.\n"@
}

/// The prompt's turn line.
pub fn turn_line(fullmove: u32, mover: Color) -> (r: String)
    ensures
        r@ == turn_text(fullmove, mover),
{
    let mut out = String::new();
    push_str(&mut out, "move ");
    push_decimal(&mut out, fullmove as u64);
    push_str(&mut out, ": ");
    push_lower_name(&mut out, mover);
    push_str(&mut out, " to move.\n");
    proof {
        assert(out@ =~= turn_text(fullmove, mover));
    }
    out
}

/// The prompt's greeting: how to enter moves, the commands, and the
/// opponent's seed with how to replay the game.
pub open spec fn intro_text(seed: u64) -> Seq<char> {
    "chess-tutor play — enter moves as SAN (e4, Nf3, O-O) or UCI (e2e4).\n"@
        + "commands: moves | eval | search | analyze | retrospect | explain-best | openings | eval-mask | noise | undo | fen | flip | resign | help | quit\n"@
        + "opponent seed: "@ + decimal(seed as nat) + " (pass --seed "@ + decimal(seed as nat)
        + " to replay this game)\n"@
}

/// The prompt's greeting.
pub fn intro(seed: u64) -> (r: String)
    ensures
        r@ == intro_text(seed),
{
    let mut out = String::new();
    push_str(&mut out, "chess-tutor play — enter moves as SAN (e4, Nf3, O-O) or UCI (e2e4).\n");
    push_str(
        &mut out,
        "commands: moves | eval | search | analyze | retrospect | explain-best | openings | eval-mask | noise | undo | fen | flip | resign | help | quit\n",
    );
    push_str(&mut out, "opponent seed: ");
    push_decimal(&mut out, seed);
    push_str(&mut out, " (pass --seed ");
    push_decimal(&mut out, seed);
    push_str(&mut out, " to replay this game)\n");
    proof {
        assert(out@ =~= intro_text(seed));
    }
    out
}

} // verus!
