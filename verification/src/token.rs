//! Tokens of script and data files, with the place they were read from.

use vstd::prelude::*;

use crate::text::{lower_seq, str_chars, str_eq, str_lower_eq};

verus! {

/// A place in a file: the file's index in the table of loaded files, and a
/// line and column, both counted from 1 (0 where there is none).
#[derive(Clone, Copy, Debug, PartialEq, Eq, Structural)]
pub struct Loc {
    pub file: u32,
    pub line: u32,
    pub column: u32,
}

impl Loc {
    /// A place at the given line and column of file `file`.
    pub fn new(file: u32, line: u32, column: u32) -> (r: Loc)
        ensures
            r == (Loc { file, line, column }),
    {
        Loc { file, line, column }
    }

    /// The place that stands for a whole file.
    pub fn for_file(file: u32) -> (r: Loc)
        ensures
            r == (Loc { file, line: 0, column: 0 }),
    {
        Loc { file, line: 0, column: 0 }
    }
}

/// A piece of text read from a file, with its place.
#[derive(Clone, Debug)]
pub struct Token {
    pub s: String,
    pub loc: Loc,
}

impl Token {
    /// A token holding the text `s` at `loc`.
    pub fn new(s: &str, loc: Loc) -> (r: Token)
        ensures
            r.s@ == s@,
            r.loc == loc,
    {
        Token { s: String::from_str(s), loc }
    }

    /// The text of the token.
    pub fn as_str(&self) -> (r: &str)
        ensures
            r@ == self.s@,
    {
        self.s.as_str()
    }

    /// The characters of the token's text.
    pub fn chars(&self) -> (r: Vec<char>)
        ensures
            r@ == self.s@,
    {
        str_chars(self.s.as_str())
    }

    /// Whether the token's text is exactly `s`.
    pub fn is(&self, s: &str) -> (r: bool)
        ensures
            r == (self.s@ == s@),
    {
        str_eq(self.s.as_str(), s)
    }

    /// Whether the token's text, in ASCII lowercase, is `s`.
    pub fn lowercase_is(&self, s: &str) -> (r: bool)
        ensures
            r == (lower_seq(self.s@) == s@),
    {
        str_lower_eq(self.s.as_str(), s)
    }

    /// A copy of the token.
    pub fn dup(&self) -> (r: Token)
        ensures
            r == *self,
    {
        Token { s: self.s.clone(), loc: self.loc }
    }
}

} // verus!
