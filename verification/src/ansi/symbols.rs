//! The fixed escape fragments from which styled output is assembled.

use vstd::prelude::*;

verus! {

/// A constant fragment of an ANSI escape sequence.
#[derive(Clone, Copy, Debug, PartialEq, Eq)]
pub enum Symbol {
    /// The letter that closes a graphic-rendition sequence.
    Mode,
    /// The separator between two parameters of one sequence.
    Semicolon,
    /// The bracket that follows the escape character.
    LeftBrackets,
    /// The escape character itself.
    Esc,
    /// The sequence that restores the terminal's default rendition.
    Reset,
    /// The introducer of a foreground colour from the 256-colour palette.
    Screen256Foreground,
    /// The introducer of a background colour from the 256-colour palette.
    Screen256Background,
}

impl Symbol {
    /// The characters this fragment stands for.
    pub open spec fn text(self) -> Seq<char> {
        match self {
            Symbol::Mode => seq!['m'],
            Symbol::Semicolon => seq![';'],
            Symbol::LeftBrackets => seq!['['],
            Symbol::Esc => seq!['\x1B'],
            Symbol::Reset => seq!['\x1B', '[', '0', 'm'],
            Symbol::Screen256Foreground => seq!['\x1B', '[', '3', '8', ';', '5', ';'],
            Symbol::Screen256Background => seq!['\x1B', '[', '4', '8', ';', '5', ';'],
        }
    }

    /// The fragment as a string slice.
    pub fn to_str<'a>(&self) -> (s: &'a str)
        ensures
            s@ == self.text(),
    {
        proof {
            reveal_strlit("m");
            reveal_strlit(";");
            reveal_strlit("[");
            reveal_strlit("\x1B");
            reveal_strlit("\x1B[0m");
            reveal_strlit("\x1B[38;5;");
            reveal_strlit("\x1B[48;5;");
        }
        match self {
            Symbol::Mode => "m",
            Symbol::Semicolon => ";",
            Symbol::LeftBrackets => "[",
            Symbol::Esc => "\x1B",
            Symbol::Reset => "\x1B[0m",
            Symbol::Screen256Foreground => "\x1B[38;5;",
            Symbol::Screen256Background => "\x1B[48;5;",
        }
    }
}

} // verus!
