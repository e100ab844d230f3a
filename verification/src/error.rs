//! Errors of reading the song database's data.

use vstd::prelude::*;

verus! {

/// What can go wrong while reading data of the song database.
#[derive(Debug, Clone)]
pub enum Error {
    /// A text that should name a value names none; the text is carried.
    ParseError(String),
}

impl Error {
    /// Whether this is the parse error that carries the text `s`.
    pub open spec fn is_parse_error_of(self, s: Seq<char>) -> bool {
        self matches Error::ParseError(text) && text@ == s
    }
}

} // verus!
