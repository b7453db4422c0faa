//! The mathematical model of a value that can be styled.

use vstd::prelude::*;
use crate::ansi::{Color, Style};

verus! {

/// What a styled value is: its text, the colours attached to it, the
/// attributes attached to it in the order they were added, and whether it
/// is still a plain string.
pub struct StyledValue {
    pub text: Seq<char>,
    pub foreground: Option<Color>,
    pub background: Option<Color>,
    pub attributes: Seq<Style>,
    pub plain: bool,
}

impl StyledValue {
    /// A plain string: text with nothing attached to it.
    pub open spec fn raw(text: Seq<char>) -> StyledValue {
        StyledValue {
            text,
            foreground: None,
            background: None,
            attributes: Seq::empty(),
            plain: true,
        }
    }

    /// This value with `color` as its foreground, whatever the foreground
    /// was before. The result is no longer plain.
    pub open spec fn with_color(self, color: Color) -> StyledValue {
        StyledValue { foreground: Some(color), plain: false, ..self }
    }

    /// This value with `style` added after the attributes it already has.
    /// The result is no longer plain.
    pub open spec fn with_style(self, style: Style) -> StyledValue {
        StyledValue { attributes: self.attributes.push(style), plain: false, ..self }
    }

    /// Nothing is attached: no colour and no attribute.
    pub open spec fn is_bare(self) -> bool {
        &&& self.foreground is None
        &&& self.background is None
        &&& self.attributes.len() == 0
    }

    /// The states the styling operations can produce: a plain value has
    /// nothing attached, and a value that is not plain has a foreground or
    /// at least one attribute.
    pub open spec fn reachable(self) -> bool {
        &&& self.plain ==> self.is_bare()
        &&& !self.plain ==> self.foreground is Some || self.attributes.len() > 0
    }
}

} // verus!
