//! Opening book lookup and ECO identification. The book holds no entries
//! yet, so every lookup misses.

use vstd::prelude::*;

verus! {

#[derive(Debug, Clone)]
pub struct OpeningHit {
    pub eco: String,
    pub name: String,
    pub moves: Vec<String>,
    pub common_continuations: Vec<String>,
}

/// Read-only handle over an opening book.
#[derive(Debug, Default)]
pub struct Book;

impl Book {
    pub fn new() -> (r: Book) {
        Book
    }

    /// Look up a position in the book; the empty book knows no position.
    pub fn lookup(&self, fen: &str) -> (r: Option<OpeningHit>)
        ensures
            r is None,
    {
        None
    }
}

} // verus!
