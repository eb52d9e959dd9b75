//! The UCI protocol shim's decisions, which do not touch the engine: what
//! each command line asks for (a reply, a new game with its seed, a root
//! position, a search to some depth, or the end), the reading of
//! `position` and `go` commands, and the derivation of per-game seeds. The
//! driver searches, builds positions and writes the replies.

use vstd::prelude::*;

use vstd::string::StrSliceExecFns;

use crate::text::{
    chars_of, has_prefix, lemma_trimmed_has_token, parse_unsigned, push_str, same_chars, slice_of, spec_parse_unsigned,
    spec_tokens, spec_trim, starts_with, string_of, texts, tokens, trim,
};

verus! {

/// Index of the first token equal to `depth` at or after `i`, or the
/// number of tokens if there is none.
pub open spec fn depth_token_from(toks: Seq<Seq<char>>, i: int) -> int
    decreases toks.len() - i,
{
    if i < 0 || i >= toks.len() {
        toks.len() as int
    } else if toks[i] == "depth"@ {
        i
    } else {
        depth_token_from(toks, i + 1)
    }
}

/// The depth a `go` command asks for: the token after the first `depth`
/// token, read as a `u32`; `None` when there is no such token or it is not
/// a number (time controls, `infinite`, `nodes`).
pub open spec fn spec_go_depth(line: Seq<char>) -> Option<int> {
    let toks = spec_tokens(line);
    let i = depth_token_from(toks, 0);
    if i + 1 < toks.len() {
        spec_parse_unsigned(toks[i + 1], u32::MAX as int)
    } else {
        None
    }
}

/// Extract the depth from a `go depth N` command, if present.
pub fn parse_go_depth(line: &str) -> (r: Option<u32>)
    ensures
        match r {
            Some(d) => spec_go_depth(line@) == Some(d as int),
            None => spec_go_depth(line@) is None,
        },
{
    let cs = chars_of(line);
    let toks = tokens(&cs);
    let ghost st = spec_tokens(line@);
    let mut i: usize = 0;
    while i < toks.len()
        invariant
            i <= toks@.len(),
            st == spec_tokens(line@),
            toks@.len() == st.len(),
            forall|k: int| 0 <= k < toks@.len() ==> #[trigger] toks@[k]@ == st[k],
            depth_token_from(st, 0) == depth_token_from(st, i as int),
        decreases toks.len() - i,
    {
        if same_chars(&toks[i], "depth") {
            if i + 1 < toks.len() {
                return match parse_unsigned(&toks[i + 1], u32::MAX as u64) {
                    Some(v) => Some(v as u32),
                    None => None,
                };
            }
            return None;
        }
        i = i + 1;
    }
    None
}

/// SplitMix64 step mixing the base seed with the per-game counter.
pub open spec fn spec_mix_seed(base: u64, game_index: u64) -> u64 {
    let x0 = base.wrapping_add(game_index.wrapping_mul(0x9E37_79B9_7F4A_7C15)).wrapping_add(
        0xD1B5_4A32_D192_ED03,
    );
    let x1 = x0 ^ (x0 >> 30u64);
    let x2 = x1.wrapping_mul(0xBF58_476D_1CE4_E5B9);
    let x3 = x2 ^ (x2 >> 27u64);
    let x4 = x3.wrapping_mul(0x94D0_49BB_1331_11EB);
    x4 ^ (x4 >> 31u64)
}

/// Per-game seed: SplitMix64 of the base seed advanced by the game index,
/// so each game of a run gets a distinct yet reproducible seed.
pub fn mix_seed(base: u64, game_index: u64) -> (r: u64)
    ensures
        r == spec_mix_seed(base, game_index),
{
    let mut x: u64 = base.wrapping_add(game_index.wrapping_mul(0x9E37_79B9_7F4A_7C15)).wrapping_add(
        0xD1B5_4A32_D192_ED03,
    );
    x = x ^ (x >> 30u64);
    x = x.wrapping_mul(0xBF58_476D_1CE4_E5B9);
    x = x ^ (x >> 27u64);
    x = x.wrapping_mul(0x94D0_49BB_1331_11EB);
    x = x ^ (x >> 31u64);
    x
}

proof fn lemma_mul_unit_injective(x: int, y: int, c: int, ci: int, k: int, q1: int, q2: int)
    by (nonlinear_arith)
    requires
        0 <= x < 0x1_0000_0000_0000_0000,
        0 <= y < 0x1_0000_0000_0000_0000,
        c * ci == 1 + k * 0x1_0000_0000_0000_0000,
        x * c - q1 * 0x1_0000_0000_0000_0000 == y * c - q2 * 0x1_0000_0000_0000_0000,
    ensures
        x == y,
{
    let m: int = 0x1_0000_0000_0000_0000;
    let d = x - y;
    assert(d * c == (q1 - q2) * m);
    assert(d * c * ci == (q1 - q2) * m * ci);
    assert(d * c * ci == d + d * k * m);
    let t = (q1 - q2) * ci - d * k;
    assert(d == m * t);
    if t >= 1 {
        assert(m * t >= m);
    } else if t <= -1 {
        assert(m * t <= -m);
    }
}

/// Multiplying by a constant `c` that has an inverse `ci` modulo 2^64 is
/// one-to-one on `u64`.
proof fn lemma_wrapping_mul_injective(x: u64, y: u64, c: u64, ci: int, k: int)
    requires
        c * ci == 1 + k * 0x1_0000_0000_0000_0000,
        x.wrapping_mul(c) == y.wrapping_mul(c),
    ensures
        x == y,
{
    let m: int = 0x1_0000_0000_0000_0000;
    let a = x as nat * c as nat;
    let b = y as nat * c as nat;
    vstd::arithmetic::div_mod::lemma_fundamental_div_mod(a as int, m);
    vstd::arithmetic::div_mod::lemma_fundamental_div_mod(b as int, m);
    assert(a % (m as nat) == b % (m as nat));
    lemma_mul_unit_injective(x as int, y as int, c as int, ci, k, a as int / m, b as int / m);
}

proof fn lemma_xorshift_injective(x: u64, y: u64)
    ensures
        x ^ (x >> 30u64) == y ^ (y >> 30u64) ==> x == y,
        x ^ (x >> 27u64) == y ^ (y >> 27u64) ==> x == y,
        x ^ (x >> 31u64) == y ^ (y >> 31u64) ==> x == y,
{
    assert(x ^ (x >> 30u64) == y ^ (y >> 30u64) ==> x == y) by (bit_vector);
    assert(x ^ (x >> 27u64) == y ^ (y >> 27u64) ==> x == y) by (bit_vector);
    assert(x ^ (x >> 31u64) == y ^ (y >> 31u64) ==> x == y) by (bit_vector);
}

/// The SplitMix64 finaliser, which scrambles the advanced seed.
pub open spec fn mix_finish(x0: u64) -> u64 {
    let x1 = x0 ^ (x0 >> 30u64);
    let x2 = x1.wrapping_mul(0xBF58_476D_1CE4_E5B9);
    let x3 = x2 ^ (x2 >> 27u64);
    let x4 = x3.wrapping_mul(0x94D0_49BB_1331_11EB);
    x4 ^ (x4 >> 31u64)
}

proof fn lemma_mix_finish_injective(xa0: u64, xb0: u64)
    requires
        mix_finish(xa0) == mix_finish(xb0),
    ensures
        xa0 == xb0,
{
    let m1: u64 = 0xBF58_476D_1CE4_E5B9;
    let m2: u64 = 0x94D0_49BB_1331_11EB;
    let xa1 = xa0 ^ (xa0 >> 30u64);
    let xb1 = xb0 ^ (xb0 >> 30u64);
    let xa2 = xa1.wrapping_mul(m1);
    let xb2 = xb1.wrapping_mul(m1);
    let xa3 = xa2 ^ (xa2 >> 27u64);
    let xb3 = xb2 ^ (xb2 >> 27u64);
    let xa4 = xa3.wrapping_mul(m2);
    let xb4 = xb3.wrapping_mul(m2);
    lemma_xorshift_injective(xa4, xb4);
    assert(xa4 == xb4);
    lemma_wrapping_mul_injective(xa3, xb3, m2, 0x3196_42b2_d24d_8ec3, 2077064247507883091);
    lemma_xorshift_injective(xa2, xb2);
    lemma_wrapping_mul_injective(xa1, xb1, m1, 0x96de_1b17_3f11_9089, 8125545580553827436);
    lemma_xorshift_injective(xa0, xb0);
}

/// Runs with distinct base seeds give a game distinct seeds: for a fixed
/// game index, the per-game seed is one-to-one in the base seed.
pub proof fn law_mix_seed_distinct_bases(a: u64, b: u64, game_index: u64)
    requires
        a != b,
    ensures
        spec_mix_seed(a, game_index) != spec_mix_seed(b, game_index),
{
    let k = game_index.wrapping_mul(0x9E37_79B9_7F4A_7C15);
    let xa0 = a.wrapping_add(k).wrapping_add(0xD1B5_4A32_D192_ED03);
    let xb0 = b.wrapping_add(k).wrapping_add(0xD1B5_4A32_D192_ED03);
    assert(spec_mix_seed(a, game_index) == mix_finish(xa0));
    assert(spec_mix_seed(b, game_index) == mix_finish(xb0));
    if spec_mix_seed(a, game_index) == spec_mix_seed(b, game_index) {
        lemma_mix_finish_injective(xa0, xb0);
    }
}

/// Within one run, distinct games get distinct seeds: for a fixed base
/// seed, the per-game seed is one-to-one in the game index.
pub proof fn law_mix_seed_distinct(base: u64, a: u64, b: u64)
    requires
        a != b,
    ensures
        spec_mix_seed(base, a) != spec_mix_seed(base, b),
{
    let g: u64 = 0x9E37_79B9_7F4A_7C15;
    let xa0 = base.wrapping_add(a.wrapping_mul(g)).wrapping_add(0xD1B5_4A32_D192_ED03);
    let xb0 = base.wrapping_add(b.wrapping_mul(g)).wrapping_add(0xD1B5_4A32_D192_ED03);
    assert(spec_mix_seed(base, a) == mix_finish(xa0));
    assert(spec_mix_seed(base, b) == mix_finish(xb0));
    if spec_mix_seed(base, a) == spec_mix_seed(base, b) {
        lemma_mix_finish_injective(xa0, xb0);
        assert(a.wrapping_mul(g) == b.wrapping_mul(g));
        lemma_wrapping_mul_injective(a, b, g, 0xf1de_83e1_9937_733d, 10771413168148108919);
    }
}

/// First index at or after `i` where `w` occurs in `s`.
pub open spec fn find_from(s: Seq<char>, w: Seq<char>, i: int) -> Option<int>
    decreases s.len() - i,
{
    if i < 0 || i >= s.len() || i + w.len() > s.len() {
        None
    } else if s.subrange(i, i + w.len()) == w {
        Some(i)
    } else {
        find_from(s, w, i + 1)
    }
}

proof fn lemma_find_from_bounds(s: Seq<char>, w: Seq<char>, i: int)
    requires
        0 <= i,
    ensures
        find_from(s, w, i) matches Some(k) ==> i <= k && k + w.len() <= s.len() && s.subrange(
            k,
            k + w.len(),
        ) == w,
    decreases s.len() - i,
{
    if i < s.len() && i + w.len() <= s.len() && s.subrange(i, i + w.len()) != w {
        lemma_find_from_bounds(s, w, i + 1);
    }
}

/// `s` without the prefix `p`, when it has it.
pub open spec fn strip_prefix(s: Seq<char>, p: Seq<char>) -> Seq<char> {
    if has_prefix(s, p) {
        s.subrange(p.len() as int, s.len() as int)
    } else {
        s
    }
}

/// The root a `position` command names.
#[derive(Debug, Clone)]
pub enum PositionSpec {
    /// `startpos`, or nothing.
    StartPos,
    /// `fen <FEN>`: the FEN text.
    Fen(String),
    /// Anything else: the text as given.
    Unrecognised(String),
}

/// A `position` command: the root and the moves played from it.
#[derive(Debug, Clone)]
pub struct PositionCommand {
    pub spec: PositionSpec,
    pub moves: Vec<String>,
}

/// The position part and the move-list part of a `position` command: the
/// text after the keyword, split at the first `moves`.
pub open spec fn position_parts(line: Seq<char>) -> (Seq<char>, Seq<char>) {
    let rest = spec_trim(strip_prefix(line, "position"@));
    match find_from(rest, "moves"@, 0) {
        Some(i) => (spec_trim(rest.subrange(0, i)), spec_trim(rest.subrange(i + 5, rest.len() as int))),
        None => (rest, Seq::empty()),
    }
}

/// `c` is what the `position` command `line` says.
pub open spec fn reads_position(line: Seq<char>, c: PositionCommand) -> bool {
    let (sp, mv) = position_parts(line);
    &&& if sp.len() == 0 || sp == "startpos"@ {
        c.spec is StartPos
    } else if has_prefix(sp, "fen"@) {
        c.spec matches PositionSpec::Fen(f) && f@ == spec_trim(sp.subrange(3, sp.len() as int))
    } else {
        c.spec matches PositionSpec::Unrecognised(u) && u@ == sp
    }
    &&& texts(c.moves@) == spec_tokens(mv)
}

fn find_exec(s: &Vec<char>, w: &str) -> (r: Option<usize>)
    requires
        w@.len() > 0,
    ensures
        match r {
            Some(k) => find_from(s@, w@, 0) == Some(k as int),
            None => find_from(s@, w@, 0) is None,
        },
{
    let n = s.len();
    let m = w.unicode_len();
    if m > n {
        return None;
    }
    let mut i: usize = 0;
    while i <= n - m
        invariant
            m == w@.len(),
            m > 0,
            n == s@.len(),
            m <= n,
            i <= n - m + 1,
            find_from(s@, w@, 0) == find_from(s@, w@, i as int),
        decreases n - m + 1 - i,
    {
        let part = slice_of(s, i, i + m);
        if same_chars(&part, w) {
            return Some(i);
        }
        i = i + 1;
    }
    None
}

fn text_tokens(cs: &Vec<char>) -> (r: Vec<String>)
    ensures
        texts(r@) == spec_tokens(cs@),
{
    let toks = tokens(cs);
    let mut out: Vec<String> = Vec::new();
    let mut i: usize = 0;
    while i < toks.len()
        invariant
            i <= toks@.len(),
            toks@.len() == spec_tokens(cs@).len(),
            forall|k: int| 0 <= k < toks@.len() ==> #[trigger] toks@[k]@ == spec_tokens(cs@)[k],
            texts(out@) == spec_tokens(cs@).take(i as int),
        decreases toks.len() - i,
    {
        let ghost before = out@;
        out.push(string_of(&toks[i]));
        proof {
            assert(toks@[i as int]@ == spec_tokens(cs@)[i as int]);
            assert(texts(out@) =~= texts(before).push(toks@[i as int]@));
            assert(texts(out@) =~= spec_tokens(cs@).take(i + 1));
        }
        i = i + 1;
    }
    proof {
        assert(spec_tokens(cs@).take(toks@.len() as int) =~= spec_tokens(cs@));
    }
    out
}

/// Read a `position [startpos | fen <FEN>] [moves …]` command.
pub fn parse_position_command(line: &str) -> (r: PositionCommand)
    ensures
        reads_position(line@, r),
{
    proof {
        reveal_strlit("moves");
        reveal_strlit("fen");
    }
    let cs = chars_of(line);
    let after = if starts_with(&cs, "position") {
        slice_of(&cs, "position".unicode_len(), cs.len())
    } else {
        cs
    };
    let rest = trim(&after);
    let (sp, mv) = match find_exec(&rest, "moves") {
        Some(i) => {
            proof {
                lemma_find_from_bounds(rest@, "moves"@, 0);
                assert(find_from(rest@, "moves"@, 0) == Some(i as int));
                assert("moves"@.len() == 5);
            }
            let len = rest.len();
            let head = slice_of(&rest, 0, i);
            let tail = slice_of(&rest, i + 5, len);
            (trim(&head), trim(&tail))
        },
        None => (rest, Vec::new()),
    };
    let moves = text_tokens(&mv);
    let spec = if sp.len() == 0 || same_chars(&sp, "startpos") {
        PositionSpec::StartPos
    } else if starts_with(&sp, "fen") {
        let f = slice_of(&sp, 3, sp.len());
        PositionSpec::Fen(string_of(&trim(&f)))
    } else {
        PositionSpec::Unrecognised(string_of(&sp))
    };
    proof {
        assert(position_parts(line@) == (sp@, mv@));
    }
    PositionCommand { spec, moves }
}

/// The `bestmove` reply: the chosen move in UCI, or `0000` when there is
/// no legal move.
pub open spec fn bestmove_text(mv: Option<Seq<char>>) -> Seq<char> {
    match mv {
        Some(m) => "bestmove "@ + m + "\n"@,
        None => "bestmove 0000\n"@,
    }
}

/// The `bestmove` reply.
pub fn bestmove_line(mv: Option<&str>) -> (r: String)
    ensures
        r@ == bestmove_text(
            match mv {
                Some(m) => Some(m@),
                None => None,
            },
        ),
{
    let mut out = String::new();
    match mv {
        Some(m) => {
            push_str(&mut out, "bestmove ");
            push_str(&mut out, m);
            push_str(&mut out, "\n");
        },
        None => push_str(&mut out, "bestmove 0000\n"),
    }
    proof {
        assert(out@ =~= bestmove_text(
            match mv {
                Some(m) => Some(m@),
                None => None,
            },
        ));
    }
    out
}

/// What the driver does for one command line.
#[derive(Debug, Clone)]
pub enum UciAction {
    /// Write this text and flush.
    Reply(String),
    /// Clear the engine's tables, go back to the start position with an
    /// empty history, and play this game with `seed`.
    NewGame { seed: u64 },
    /// Set up the root this command names (reporting a bad one on the
    /// error stream).
    SetPosition(PositionCommand),
    /// Choose a move by searching to `depth` and reply with `bestmove`.
    Search { depth: u32 },
    /// Stop reading commands.
    Quit,
    /// Nothing to do (blank lines, `stop`, `setoption`, `debug`,
    /// `ponderhit`, and anything unrecognised).
    Nothing,
}

/// The protocol state of one shim run: its base seed and configured depth,
/// how many new games it has started, and the current game's seed.
pub struct UciSession {
    base_seed: u64,
    depth: u32,
    game_index: u64,
    game_seed: u64,
}

/// The reply to `uci`: the engine's name and author, then `uciok`.
pub open spec fn uci_reply() -> Seq<char> {
    "id name chess-tutor-bot\n"@ + "id author chess-tutor\n"@ + "uciok\n"@
}

/// The search depth of a `go` line: its `depth N` if any, else the
/// configured depth, and at least 1.
pub open spec fn go_depth(line: Seq<char>, configured: u32) -> int {
    let d = match spec_go_depth(line) {
        Some(n) => n,
        None => configured as int,
    };
    if d < 1 {
        1
    } else {
        d
    }
}

impl UciSession {
    pub closed spec fn spec_base_seed(self) -> u64 {
        self.base_seed
    }

    pub closed spec fn spec_depth(self) -> u32 {
        self.depth
    }

    pub closed spec fn spec_games(self) -> u64 {
        self.game_index
    }

    pub closed spec fn spec_seed(self) -> u64 {
        self.game_seed
    }

    /// A run with a base seed and a configured depth, before any
    /// `ucinewgame`: game 0, seeded from the base seed.
    pub fn new(base_seed: u64, depth: u32) -> (r: UciSession)
        ensures
            r.spec_base_seed() == base_seed,
            r.spec_depth() == depth,
            r.spec_games() == 0,
            r.spec_seed() == spec_mix_seed(base_seed, 0),
    {
        UciSession { base_seed, depth, game_index: 0, game_seed: mix_seed(base_seed, 0) }
    }

    /// The current game's seed.
    pub fn game_seed(&self) -> (r: u64)
        ensures
            r == self.spec_seed(),
    {
        self.game_seed
    }

    /// How many new games the run has started.
    pub fn games_started(&self) -> (r: u64)
        ensures
            r == self.spec_games(),
    {
        self.game_index
    }

    /// What one command line asks for, and the state after it: the line is
    /// trimmed, blank lines ask nothing, and the first word decides.
    pub open spec fn steps_to(before: UciSession, line: Seq<char>, after: UciSession, a: UciAction) -> bool {
        let t = spec_trim(line);
        let same = after == before;
        if t.len() == 0 {
            same && a is Nothing
        } else {
            let cmd = spec_tokens(t)[0];
            if cmd == "uci"@ {
                same && (a matches UciAction::Reply(m) && m@ == uci_reply())
            } else if cmd == "isready"@ {
                same && (a matches UciAction::Reply(m) && m@ == "readyok\n"@)
            } else if cmd == "ucinewgame"@ {
                &&& after.spec_base_seed() == before.spec_base_seed()
                &&& after.spec_depth() == before.spec_depth()
                &&& after.spec_games() == before.spec_games() + 1
                &&& after.spec_seed() == spec_mix_seed(before.spec_base_seed(), after.spec_games())
                &&& a matches UciAction::NewGame { seed } && seed == after.spec_seed()
            } else if cmd == "position"@ {
                same && (a matches UciAction::SetPosition(c) && reads_position(t, c))
            } else if cmd == "go"@ {
                same && (a matches UciAction::Search { depth } && depth == go_depth(
                    t,
                    before.spec_depth(),
                ))
            } else if cmd == "quit"@ {
                same && a is Quit
            } else {
                same && a is Nothing
            }
        }
    }

    /// Answer one command line.
    pub fn step(&mut self, line: &str) -> (a: UciAction)
        requires
            old(self).spec_games() < u64::MAX,
        ensures
            Self::steps_to(*old(self), line@, *final(self), a),
    {
        let t = trim(&chars_of(line));
        if t.len() == 0 {
            return UciAction::Nothing;
        }
        let toks = tokens(&t);
        proof {
            lemma_trimmed_has_token(line@);
        }
        let cmd = &toks[0];
        if same_chars(cmd, "uci") {
            let mut m = String::new();
            push_str(&mut m, "id name chess-tutor-bot\n");
            push_str(&mut m, "id author chess-tutor\n");
            push_str(&mut m, "uciok\n");
            proof {
                assert(m@ =~= uci_reply());
            }
            UciAction::Reply(m)
        } else if same_chars(cmd, "isready") {
            let mut m = String::new();
            push_str(&mut m, "readyok\n");
            UciAction::Reply(m)
        } else if same_chars(cmd, "ucinewgame") {
            self.game_index = self.game_index + 1;
            self.game_seed = mix_seed(self.base_seed, self.game_index);
            UciAction::NewGame { seed: self.game_seed }
        } else if same_chars(cmd, "position") {
            let s = string_of(&t);
            UciAction::SetPosition(parse_position_command(s.as_str()))
        } else if same_chars(cmd, "go") {
            let s = string_of(&t);
            let d = match parse_go_depth(s.as_str()) {
                Some(n) => n,
                None => self.depth,
            };
            UciAction::Search { depth: if d < 1 { 1 } else { d } }
        } else if same_chars(cmd, "quit") {
            UciAction::Quit
        } else {
            UciAction::Nothing
        }
    }
}

} // verus!
