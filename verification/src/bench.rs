//! The multi-position search benchmark's arguments, the reading of its
//! `--positions` list ("1,8,20-22") into the set of 1-based indices to run,
//! and the reading of a position file into its entries.

use vstd::prelude::*;

use std::collections::HashSet;

use crate::text::{
    chars_of, debug_quoted, debug_text, lemma_parse_unsigned_range, parse_unsigned, push_str, slice_of, spec_parse_unsigned,
    spec_trim, string_of, texts, trim,
};

verus! {

broadcast use vstd::std_specs::hash::group_hash_axioms;

/// The benchmark's arguments, in Stockfish's positional order
/// (`tt_mb threads limit fen_file limit_type`), plus flags of its own.
#[derive(Debug, Clone)]
pub struct BenchArgs {
    pub tt_mb: usize,
    pub threads: usize,
    pub limit: u64,
    pub fen_file: String,
    pub limit_type: String,
    /// Start a new game (clean tables) between positions.
    pub new_game_between_positions: bool,
    /// Print per-position search diagnostics.
    pub verbose: bool,
    /// Only the listed 1-based positions, as typed (e.g. "20,26,40-41").
    pub positions: Option<String>,
}

/// Index of the first `c` in `s` at or after `i` (the length when none).
pub open spec fn find_char(s: Seq<char>, c: char, i: int) -> int
    decreases s.len() - i,
{
    if i >= s.len() {
        s.len() as int
    } else if s[i] == c {
        i
    } else {
        find_char(s, c, i + 1)
    }
}

pub open spec fn range_error(tok: Seq<char>) -> Seq<char> {
    "bench: bad position range "@ + debug_text(tok)
}

pub open spec fn index_error(tok: Seq<char>) -> Seq<char> {
    "bench: bad position index "@ + debug_text(tok)
}

/// The indices `lo..=hi`.
pub open spec fn index_range(lo: usize, hi: usize) -> Set<usize> {
    Set::new(|i: usize| lo <= i <= hi)
}

/// One trimmed token added to the indices read so far: nothing for an
/// empty token, a range `lo-hi` (split at the first `-`, both ends
/// trimmed, `1 <= lo <= hi`), or a single index of at least 1.
pub open spec fn token_step(tok: Seq<char>, acc: Set<usize>) -> Result<Set<usize>, Seq<char>> {
    if tok.len() == 0 {
        Ok(acc)
    } else {
        let d = find_char(tok, '-', 0);
        if d < tok.len() {
            let lo = spec_parse_unsigned(spec_trim(tok.subrange(0, d)), usize::MAX as int);
            let hi = spec_parse_unsigned(spec_trim(tok.subrange(d + 1, tok.len() as int)), usize::MAX as int);
            match (lo, hi) {
                (Some(l), Some(h)) => if l == 0 || h < l {
                    Err(range_error(tok))
                } else {
                    Ok(acc.union(index_range(l as usize, h as usize)))
                },
                _ => Err(range_error(tok)),
            }
        } else {
            match spec_parse_unsigned(tok, usize::MAX as int) {
                Some(i) => if i == 0 {
                    Err("bench: position indices are 1-based; got 0"@)
                } else {
                    Ok(acc.insert(i as usize))
                },
                None => Err(index_error(tok)),
            }
        }
    }
}

/// Reading `s` from position `i`, where the current token started at
/// `tok_start`, with `acc` read so far; the first bad token stops it.
pub open spec fn scan(s: Seq<char>, i: int, tok_start: int, acc: Set<usize>) -> Result<
    Set<usize>,
    Seq<char>,
>
    decreases s.len() - i,
{
    if i >= s.len() {
        token_step(spec_trim(s.subrange(tok_start, s.len() as int)), acc)
    } else if s[i] == ',' {
        match token_step(spec_trim(s.subrange(tok_start, i)), acc) {
            Err(e) => Err(e),
            Ok(a) => scan(s, i + 1, i + 1, a),
        }
    } else {
        scan(s, i + 1, tok_start, acc)
    }
}

/// The indices a `--positions` text names, or the message of the first
/// error; an empty result is an error too.
pub open spec fn spec_position_indices(s: Seq<char>) -> Result<Set<usize>, Seq<char>> {
    match scan(s, 0, 0, Set::empty()) {
        Err(e) => Err(e),
        Ok(set) => if set.is_empty() {
            Err("bench: --positions argument matched no indices"@)
        } else {
            Ok(set)
        },
    }
}

proof fn lemma_token_step_grows(tok: Seq<char>, acc: Set<usize>)
    ensures
        token_step(tok, acc) matches Ok(a) ==> acc.subset_of(a) && forall|x: usize|
            #[trigger] a.contains(x) && !acc.contains(x) ==> x >= 1,
{
    if tok.len() > 0 {
        let d = find_char(tok, '-', 0);
        if d < tok.len() {
            lemma_parse_unsigned_range(spec_trim(tok.subrange(0, d)), usize::MAX as int);
            lemma_parse_unsigned_range(
                spec_trim(tok.subrange(d + 1, tok.len() as int)),
                usize::MAX as int,
            );
        } else {
            lemma_parse_unsigned_range(tok, usize::MAX as int);
        }
    }
}

proof fn lemma_scan_grows(s: Seq<char>, i: int, tok_start: int, acc: Set<usize>)
    ensures
        scan(s, i, tok_start, acc) matches Ok(a) ==> acc.subset_of(a) && forall|x: usize|
            #[trigger] a.contains(x) && !acc.contains(x) ==> x >= 1,
    decreases s.len() - i,
{
    if i >= s.len() {
        lemma_token_step_grows(spec_trim(s.subrange(tok_start, s.len() as int)), acc);
    } else if s[i] == ',' {
        lemma_token_step_grows(spec_trim(s.subrange(tok_start, i)), acc);
        if let Ok(a) = token_step(spec_trim(s.subrange(tok_start, i)), acc) {
            lemma_scan_grows(s, i + 1, i + 1, a);
        }
    } else {
        lemma_scan_grows(s, i + 1, tok_start, acc);
    }
}

/// The comma-separated pieces of `s` from position `i`, where the current
/// piece started at `start`, each trimmed.
pub open spec fn comma_tokens(s: Seq<char>, i: int, start: int) -> Seq<Seq<char>>
    decreases s.len() - i,
{
    if i >= s.len() {
        seq![spec_trim(s.subrange(start, s.len() as int))]
    } else if s[i] == ',' {
        seq![spec_trim(s.subrange(start, i))] + comma_tokens(s, i + 1, i + 1)
    } else {
        comma_tokens(s, i + 1, start)
    }
}

/// The indices one token names on its own.
pub open spec fn token_indices(tok: Seq<char>) -> Result<Set<usize>, Seq<char>> {
    token_step(tok, Set::empty())
}

/// Reading the tokens in order from `acc`: the union of their index sets,
/// or the error of the first bad token.
pub open spec fn union_of_tokens(toks: Seq<Seq<char>>, acc: Set<usize>) -> Result<Set<usize>, Seq<char>>
    decreases toks.len(),
{
    if toks.len() == 0 {
        Ok(acc)
    } else {
        match token_indices(toks[0]) {
            Err(e) => Err(e),
            Ok(t) => union_of_tokens(toks.drop_first(), acc.union(t)),
        }
    }
}

proof fn lemma_token_step_union(tok: Seq<char>, acc: Set<usize>)
    ensures
        token_step(tok, acc) == (match token_indices(tok) {
            Err(e) => Err(e),
            Ok(t) => Ok(acc.union(t)),
        }),
{
    if tok.len() == 0 {
        assert(acc.union(Set::<usize>::empty()) =~= acc);
    } else {
        let d = find_char(tok, '-', 0);
        if d < tok.len() {
            let lo = spec_parse_unsigned(spec_trim(tok.subrange(0, d)), usize::MAX as int);
            let hi = spec_parse_unsigned(spec_trim(tok.subrange(d + 1, tok.len() as int)), usize::MAX as int);
            if let (Some(l), Some(h)) = (lo, hi) {
                let r = index_range(l as usize, h as usize);
                assert(Set::<usize>::empty().union(r) =~= r);
            }
        } else {
            if let Some(i) = spec_parse_unsigned(tok, usize::MAX as int) {
                assert(acc.insert(i as usize) =~= acc.union(Set::<usize>::empty().insert(i as usize)));
            }
        }
    }
}

proof fn lemma_scan_is_union(s: Seq<char>, i: int, start: int, acc: Set<usize>)
    requires
        0 <= start <= i,
        start <= s.len(),
    ensures
        scan(s, i, start, acc) == union_of_tokens(comma_tokens(s, i, start), acc),
    decreases s.len() - i,
{
    if i >= s.len() {
        let tok = spec_trim(s.subrange(start, s.len() as int));
        lemma_token_step_union(tok, acc);
        assert(seq![tok].drop_first() =~= Seq::<Seq<char>>::empty());
        if let Ok(t) = token_indices(tok) {
            assert(union_of_tokens(Seq::<Seq<char>>::empty(), acc.union(t)) == Ok::<Set<usize>, Seq<char>>(acc.union(t)));
        }
        assert(comma_tokens(s, i, start) == seq![tok]);
    } else if s[i] == ',' {
        let tok = spec_trim(s.subrange(start, i));
        lemma_token_step_union(tok, acc);
        let rest = comma_tokens(s, i + 1, i + 1);
        assert((seq![tok] + rest)[0] == tok);
        assert((seq![tok] + rest).drop_first() =~= rest);
        assert(comma_tokens(s, i, start) == seq![tok] + rest);
        if let Ok(t) = token_indices(tok) {
            lemma_scan_is_union(s, i + 1, i + 1, acc.union(t));
        }
    } else {
        lemma_scan_is_union(s, i + 1, start, acc);
        assert(comma_tokens(s, i, start) == comma_tokens(s, i + 1, start));
    }
}

/// A `--positions` list names the union of what its comma-separated
/// tokens name (each trimmed; an empty token names nothing, `a-b` the
/// inclusive range), read left to right: the first bad token's error
/// otherwise, and an error for a list that names nothing.
pub proof fn law_position_indices_are_token_union(s: Seq<char>)
    ensures
        spec_position_indices(s) == (match union_of_tokens(comma_tokens(s, 0, 0), Set::empty()) {
            Err(e) => Err(e),
            Ok(set) => if set.is_empty() {
                Err("bench: --positions argument matched no indices"@)
            } else {
                Ok(set)
            },
        }),
{
    lemma_scan_is_union(s, 0, 0, Set::empty());
}

/// Position indices are 1-based: every index a `--positions` list names
/// is at least 1, and a list that names none is refused.
pub proof fn law_position_indices_one_based(s: Seq<char>)
    ensures
        spec_position_indices(s) matches Ok(set) ==> !set.is_empty() && forall|x: usize|
            #[trigger] set.contains(x) ==> x >= 1,
{
    lemma_scan_grows(s, 0, 0, Set::empty());
}

fn find_dash(tok: &Vec<char>) -> (r: usize)
    ensures
        r == find_char(tok@, '-', 0),
{
    let mut i: usize = 0;
    while i < tok.len() && tok[i] != '-'
        invariant
            i <= tok@.len(),
            find_char(tok@, '-', 0) == find_char(tok@, '-', i as int),
        decreases tok.len() - i,
    {
        i = i + 1;
    }
    i
}

fn message(head: &str, tok: &Vec<char>) -> (r: String)
    ensures
        r@ == head@ + debug_text(tok@),
{
    let mut out = String::new();
    push_str(&mut out, head);
    let t = string_of(tok);
    let q = debug_quoted(t.as_str());
    push_str(&mut out, q.as_str());
    out
}

fn insert_range(out: &mut HashSet<usize>, lo: usize, hi: usize)
    requires
        lo <= hi,
    ensures
        final(out)@ == old(out)@.union(index_range(lo, hi)),
{
    let mut i = lo;
    loop
        invariant
            lo <= i <= hi,
            out@ == old(out)@.union(Set::new(|x: usize| lo <= x < i)),
        decreases hi - i,
    {
        out.insert(i);
        if i == hi {
            assert(out@ =~= old(out)@.union(index_range(lo, hi)));
            return;
        }
        i = i + 1;
        assert(out@ =~= old(out)@.union(Set::new(|x: usize| lo <= x < i)));
    }
}

fn add_token(out: &mut HashSet<usize>, tok: &Vec<char>) -> (r: Result<(), String>)
    ensures
        match r {
            Ok(()) => token_step(tok@, old(out)@) == Ok::<Set<usize>, Seq<char>>(final(out)@),
            Err(e) => token_step(tok@, old(out)@) == Err::<Set<usize>, Seq<char>>(e@),
        },
{
    if tok.len() == 0 {
        return Ok(());
    }
    let d = find_dash(tok);
    if d < tok.len() {
        let lo = parse_unsigned(&trim(&slice_of(tok, 0, d)), usize::MAX as u64);
        let hi = parse_unsigned(&trim(&slice_of(tok, d + 1, tok.len())), usize::MAX as u64);
        match (lo, hi) {
            (Some(l), Some(h)) => {
                if l == 0 || h < l {
                    return Err(message("bench: bad position range ", tok));
                }
                insert_range(out, l as usize, h as usize);
                Ok(())
            },
            _ => Err(message("bench: bad position range ", tok)),
        }
    } else {
        match parse_unsigned(tok, usize::MAX as u64) {
            Some(i) => {
                if i == 0 {
                    let mut e = String::new();
                    push_str(&mut e, "bench: position indices are 1-based; got 0");
                    return Err(e);
                }
                out.insert(i as usize);
                Ok(())
            },
            None => Err(message("bench: bad position index ", tok)),
        }
    }
}

/// Read a `--positions` list into the 1-based indices it names: tokens
/// separated by commas, each trimmed; empty tokens are skipped; `a-b`
/// names the inclusive range.
pub fn parse_position_indices(s: &str) -> (r: Result<HashSet<usize>, String>)
    ensures
        match r {
            Ok(set) => spec_position_indices(s@) == Ok::<Set<usize>, Seq<char>>(set@),
            Err(e) => spec_position_indices(s@) == Err::<Set<usize>, Seq<char>>(e@),
        },
{
    let cs = chars_of(s);
    let n = cs.len();
    let mut out: HashSet<usize> = HashSet::new();
    let mut tok_start: usize = 0;
    let mut i: usize = 0;
    while i < n
        invariant
            n == cs@.len(),
            cs@ == s@,
            tok_start <= i <= n,
            scan(s@, 0, 0, Set::empty()) == scan(s@, i as int, tok_start as int, out@),
        decreases n - i,
    {
        if cs[i] == ',' {
            let tok = trim(&slice_of(&cs, tok_start, i));
            match add_token(&mut out, &tok) {
                Ok(()) => {},
                Err(e) => return Err(e),
            }
            tok_start = i + 1;
        }
        i = i + 1;
    }
    let tok = trim(&slice_of(&cs, tok_start, n));
    match add_token(&mut out, &tok) {
        Ok(()) => {},
        Err(e) => return Err(e),
    }
    if out.is_empty() {
        let mut e = String::new();
        push_str(&mut e, "bench: --positions argument matched no indices");
        return Err(e);
    }
    Ok(out)
}

/// Index of the first line break at or after `i` (the length when none).
pub open spec fn line_end(s: Seq<char>, i: int) -> int
    decreases s.len() - i,
{
    if i < 0 || i >= s.len() {
        s.len() as int
    } else if s[i] == '\n' {
        i
    } else {
        line_end(s, i + 1)
    }
}

proof fn lemma_line_end_bounds(s: Seq<char>, i: int)
    requires
        0 <= i <= s.len(),
    ensures
        i <= line_end(s, i) <= s.len(),
        line_end(s, i) < s.len() ==> s[line_end(s, i)] == '\n',
    decreases s.len() - i,
{
    if i < s.len() && s[i] != '\n' {
        lemma_line_end_bounds(s, i + 1);
    }
}

/// The entries of the lines of `s` from index `i` on: each line trimmed,
/// blank lines and `#` comment lines left out.
pub open spec fn entries_from(s: Seq<char>, i: int) -> Seq<Seq<char>>
    decreases s.len() - i,
{
    if i < 0 || i > s.len() {
        Seq::empty()
    } else {
        let j = line_end(s, i);
        let t = spec_trim(s.subrange(i, j));
        let rest = if i <= j < s.len() {
            entries_from(s, j + 1)
        } else {
            Seq::empty()
        };
        if t.len() > 0 && t[0] != '#' {
            seq![t] + rest
        } else {
            rest
        }
    }
}

/// The entries of a position file: one per line, trimmed, without blank
/// lines and `#` comments.
pub fn file_entries(body: &str) -> (r: Vec<String>)
    ensures
        texts(r@) == entries_from(body@, 0),
{
    let cs = chars_of(body);
    let n = cs.len();
    let mut out: Vec<String> = Vec::new();
    let mut i: usize = 0;
    loop
        invariant_except_break
            texts(out@) + entries_from(cs@, i as int) == entries_from(cs@, 0),
        invariant
            n == cs@.len(),
            cs@ == body@,
            i <= n,
        ensures
            texts(out@) == entries_from(cs@, 0),
        decreases n - i,
    {
        proof {
            lemma_line_end_bounds(cs@, i as int);
        }
        let mut j: usize = i;
        while j < n && cs[j] != '\n'
            invariant
                i <= j <= n,
                n == cs@.len(),
                line_end(cs@, i as int) == line_end(cs@, j as int),
            decreases n - j,
        {
            j = j + 1;
        }
        let line = slice_of(&cs, i, j);
        let t = trim(&line);
        let ghost before = out@;
        if t.len() > 0 && t[0] != '#' {
            out.push(string_of(&t));
        }
        proof {
            let rest = if j < n {
                entries_from(cs@, j + 1)
            } else {
                Seq::<Seq<char>>::empty()
            };
            assert(entries_from(cs@, i as int) == if t@.len() > 0 && t@[0] != '#' {
                seq![t@] + rest
            } else {
                rest
            });
            if t@.len() > 0 && t@[0] != '#' {
                assert(texts(out@) =~= texts(before) + seq![t@]);
            } else {
                assert(texts(out@) =~= texts(before));
            }
            if j >= n {
                assert(texts(out@) =~= texts(out@) + Seq::<Seq<char>>::empty());
            }
        }
        if j >= n {
            break;
        }
        i = j + 1;
    }
    out
}

} // verus!
