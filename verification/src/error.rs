//! Errors of the analysis library.

use vstd::prelude::*;

use crate::text::push_str;

verus! {

#[derive(Debug, Clone, PartialEq, Eq)]
pub enum Error {
    /// The text is not a FEN of a legal position, or a move text is not a
    /// legal move there.
    InvalidFen(String),
    /// The opening book could not be read.
    Book(String),
    /// The game refused an action (for example a move after the game
    /// ended).
    Engine(String),
}

/// The text of an error, as the shells show it.
pub open spec fn error_text(e: Error) -> Seq<char> {
    match e {
        Error::InvalidFen(m) => "invalid FEN: "@ + m@,
        Error::Book(m) => "opening book error: "@ + m@,
        Error::Engine(m) => "engine error: "@ + m@,
    }
}

impl Error {
    /// The message of the error, prefixed by its kind.
    pub fn message(&self) -> (r: String)
        ensures
            r@ == error_text(*self),
    {
        let mut out = String::new();
        match self {
            Error::InvalidFen(m) => {
                push_str(&mut out, "invalid FEN: ");
                push_str(&mut out, m.as_str());
            },
            Error::Book(m) => {
                push_str(&mut out, "opening book error: ");
                push_str(&mut out, m.as_str());
            },
            Error::Engine(m) => {
                push_str(&mut out, "engine error: ");
                push_str(&mut out, m.as_str());
            },
        }
        out
    }
}

} // verus!
