//! Text of the engine REPL that needs no engine: its help screen.

use vstd::prelude::*;

use crate::text::push_str;

verus! {

/// The REPL's help screen: move input forms, then one line (or two) per
/// command.
pub open spec fn help_screen() -> Seq<char> {
    "move input: SAN (e4, Nf3, O-O, Qxf7#) or UCI (e2e4, g1f3).\n"@ + "commands:\n"@ + "  moves    list every legal move as SAN\n"@ + "  eval     per-term evaluation trace for the current position\n"@ + "  search [N]   run the engine; print top N PVs with deltas (default N=1)\n"@ + "  analyze [N] [P]   teaching breakdown: top N PVs with per-term deltas,\n"@ + "                    cumulative coverage P% (default N=3, P=75)\n"@ + "  retrospect [on|off]   toggle automatic post-move verdict (default on)\n"@ + "  explain-best [on|off] narrate why Best moves were best\n"@ + "  openings [list | allow PAT | deny PAT | reset | selected]\n"@ + "                    inspect or edit the opening book (effective next game)\n"@ + "  eval-mask [list | disable CAT | enable CAT | reset]\n"@ + "                    toggle bot's blindness to eval categories\n"@ + "  noise [show | pool N | temp CP | blunder F | guarantee N | reset]\n"@ + "                    bot move-sampling knobs\n"@ + "  undo     take back one ply\n"@ + "  fen      print the current FEN\n"@ + "  flip     flip the board\n"@ + "  resign   resign the game\n"@ + "  help     this message\n"@ + "  quit     exit\n"@
}

/// The REPL's help screen.
pub fn help_text() -> (r: String)
    ensures
        r@ == help_screen(),
{
    let mut out = String::new();
    push_str(&mut out, "move input: SAN (e4, Nf3, O-O, Qxf7#) or UCI (e2e4, g1f3).\n");
    push_str(&mut out, "commands:\n");
    push_str(&mut out, "  moves    list every legal move as SAN\n");
    push_str(&mut out, "  eval     per-term evaluation trace for the current position\n");
    push_str(&mut out, "  search [N]   run the engine; print top N PVs with deltas (default N=1)\n");
    push_str(&mut out, "  analyze [N] [P]   teaching breakdown: top N PVs with per-term deltas,\n");
    push_str(&mut out, "                    cumulative coverage P% (default N=3, P=75)\n");
    push_str(&mut out, "  retrospect [on|off]   toggle automatic post-move verdict (default on)\n");
    push_str(&mut out, "  explain-best [on|off] narrate why Best moves were best\n");
    push_str(&mut out, "  openings [list | allow PAT | deny PAT | reset | selected]\n");
    push_str(&mut out, "                    inspect or edit the opening book (effective next game)\n");
    push_str(&mut out, "  eval-mask [list | disable CAT | enable CAT | reset]\n");
    push_str(&mut out, "                    toggle bot's blindness to eval categories\n");
    push_str(&mut out, "  noise [show | pool N | temp CP | blunder F | guarantee N | reset]\n");
    push_str(&mut out, "                    bot move-sampling knobs\n");
    push_str(&mut out, "  undo     take back one ply\n");
    push_str(&mut out, "  fen      print the current FEN\n");
    push_str(&mut out, "  flip     flip the board\n");
    push_str(&mut out, "  resign   resign the game\n");
    push_str(&mut out, "  help     this message\n");
    push_str(&mut out, "  quit     exit\n");
    proof {
        assert(out@ =~= help_screen());
    }
    out
}

} // verus!
