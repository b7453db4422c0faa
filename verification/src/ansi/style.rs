//! The text attributes a terminal can switch on.

use vstd::prelude::*;
use crate::decimal::{decimal, decimal_string};

verus! {

/// A text attribute, selected by its graphic-rendition parameter.
#[derive(Clone, Copy, Debug, PartialEq, Eq, Hash)]
pub enum Style {
    Bold,
    Dim,
    Underlined,
    Blink,
    Reverse,
    Hidden,
}

impl Style {
    /// The graphic-rendition parameter of this attribute.
    pub open spec fn number(self) -> nat {
        match self {
            Style::Bold => 1,
            Style::Dim => 2,
            Style::Underlined => 4,
            Style::Blink => 5,
            Style::Reverse => 7,
            Style::Hidden => 8,
        }
    }

    /// The parameter that switches this attribute on.
    pub fn code(&self) -> (c: u8)
        ensures
            c as nat == self.number(),
    {
        match self {
            Style::Bold => 1,
            Style::Dim => 2,
            Style::Underlined => 4,
            Style::Blink => 5,
            Style::Reverse => 7,
            Style::Hidden => 8,
        }
    }

    /// The parameter in decimal notation, as it stands in an escape sequence.
    pub fn to_string(&self) -> (s: String)
        ensures
            s@ == decimal(self.number()),
    {
        decimal_string(self.code())
    }
}

/// Every attribute has a parameter between 1 and 8.
pub proof fn lemma_number_in_range(s: Style)
    ensures
        1 <= s.number() <= 8,
{
}

/// No two attributes share a parameter.
pub proof fn lemma_number_unique(a: Style, b: Style)
    requires
        a.number() == b.number(),
    ensures
        a == b,
{
}

} // verus!
