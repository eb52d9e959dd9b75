//! Parsing of interactive commands: search counts, on/off toggles and
//! promotion letters.

use vstd::prelude::*;

use crate::position::Role;

use crate::text::{
    chars_of, debug_quoted, debug_text, parse_unsigned, push_str, same_chars, spec_parse_unsigned,
    spec_trim, string_of, trim,
};

verus! {

/// The error text for a count that is not a number.
pub open spec fn bad_count_text(t: Seq<char>) -> Seq<char> {
    "bad count "@ + debug_text(t) + "; expected a positive integer"@
}

/// The argument of a `search` command: empty means one line; otherwise a
/// positive integer.
pub fn parse_search_command(input: &str) -> (r: Result<usize, String>)
    ensures
        ({
            let t = spec_trim(input@);
            match r {
                Ok(n) => (t.len() == 0 && n == 1) || (t.len() > 0 && spec_parse_unsigned(
                    t,
                    usize::MAX as int,
                ) == Some(n as int) && n > 0),
                Err(e) => t.len() > 0 && ((spec_parse_unsigned(t, usize::MAX as int) is None
                    && e@ == bad_count_text(t)) || (spec_parse_unsigned(t, usize::MAX as int)
                    == Some(0int) && e@ == "count must be at least 1"@)),
            }
        }),
{
    let cs = chars_of(input);
    let trimmed = trim(&cs);
    if trimmed.len() == 0 {
        return Ok(1);
    }
    match parse_unsigned(&trimmed, usize::MAX as u64) {
        None => {
            let t = string_of(&trimmed);
            let mut e = String::new();
            push_str(&mut e, "bad count ");
            let q = debug_quoted(t.as_str());
            push_str(&mut e, q.as_str());
            push_str(&mut e, "; expected a positive integer");
            Err(e)
        },
        Some(n) => {
            if n == 0 {
                Err("count must be at least 1".to_owned())
            } else {
                Ok(n as usize)
            }
        },
    }
}

/// What a toggle argument means: empty asks for the current state, `on` /
/// `true` / `1` switch on, `off` / `false` / `0` switch off.
pub open spec fn spec_toggle(t: Seq<char>) -> Option<Option<bool>> {
    if t.len() == 0 {
        Some(None)
    } else if t == "on"@ || t == "true"@ || t == "1"@ {
        Some(Some(true))
    } else if t == "off"@ || t == "false"@ || t == "0"@ {
        Some(Some(false))
    } else {
        None
    }
}

/// Parse an on/off toggle argument.
pub fn parse_toggle(input: &str) -> (r: Result<Option<bool>, String>)
    ensures
        ({
            let t = spec_trim(input@);
            match spec_toggle(t) {
                Some(v) => r == Ok::<Option<bool>, String>(v),
                None => r matches Err(e) && e@ == "expected 'on' or 'off', got "@ + debug_text(t),
            }
        }),
{
    let cs = chars_of(input);
    let t = trim(&cs);
    if t.len() == 0 {
        return Ok(None);
    }
    if same_chars(&t, "on") || same_chars(&t, "true") || same_chars(&t, "1") {
        return Ok(Some(true));
    }
    if same_chars(&t, "off") || same_chars(&t, "false") || same_chars(&t, "0") {
        return Ok(Some(false));
    }
    let ts = string_of(&t);
    let mut e = String::new();
    push_str(&mut e, "expected 'on' or 'off', got ");
    let q = debug_quoted(ts.as_str());
    push_str(&mut e, q.as_str());
    Err(e)
}

/// The promotion piece a UCI promotion letter names.
pub open spec fn spec_promo(c: char) -> Option<Role> {
    if c == 'q' {
        Some(Role::Queen)
    } else if c == 'r' {
        Some(Role::Rook)
    } else if c == 'b' {
        Some(Role::Bishop)
    } else if c == 'n' {
        Some(Role::Knight)
    } else {
        None
    }
}

/// The promotion piece a UCI promotion letter names (lower case only).
pub fn promo_from_char(c: char) -> (r: Option<Role>)
    ensures
        r == spec_promo(c),
{
    match c {
        'q' => Some(Role::Queen),
        'r' => Some(Role::Rook),
        'b' => Some(Role::Bishop),
        'n' => Some(Role::Knight),
        _ => None,
    }
}

} // verus!
