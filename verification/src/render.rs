//! The escape-coded form of a styled value.

use vstd::prelude::*;
use crate::ansi::{Color, Style, Symbol};
use crate::decimal::{decimal, push_decimal};
use crate::model::StyledValue;

verus! {

/// The parameters of the attributes, in their stored order, written in
/// decimal and joined by the separator.
pub open spec fn attribute_list(attributes: Seq<Style>) -> Seq<char>
    decreases attributes.len(),
{
    if attributes.len() == 0 {
        Seq::empty()
    } else if attributes.len() == 1 {
        decimal(attributes[0].number())
    } else {
        attribute_list(attributes.drop_last()) + Symbol::Semicolon.text() + decimal(
            attributes.last().number(),
        )
    }
}

/// The foreground field: the foreground introducer and the palette index,
/// or nothing where no foreground is set.
pub open spec fn foreground_field(v: StyledValue) -> Seq<char> {
    match v.foreground {
        Some(c) => Symbol::Screen256Foreground.text() + decimal(c.index()),
        None => Seq::empty(),
    }
}

/// The parameters that select a background colour from the palette, as they
/// stand inside a bracket group that is already open: the background
/// introducer without the escape character and the bracket.
pub open spec fn background_selector() -> Seq<char> {
    seq!['4', '8', ';', '5', ';']
}

/// The background field. After a foreground field it stays in the same
/// bracket group: the separator, the background selector and the palette
/// index. With no foreground before it, it opens the group: the background
/// introducer and the palette index. Where no background is set it is
/// nothing.
pub open spec fn background_field(v: StyledValue) -> Seq<char> {
    match v.background {
        Some(c) => if v.foreground is Some {
            Symbol::Semicolon.text() + background_selector() + decimal(c.index())
        } else {
            Symbol::Screen256Background.text() + decimal(c.index())
        },
        None => Seq::empty(),
    }
}

/// The attribute field. Where no colour field precedes it, it opens the
/// bracket group itself, even when there is no attribute to list; after a
/// colour field it is the separator and the list, or nothing where the list
/// is empty.
pub open spec fn attribute_field(v: StyledValue) -> Seq<char> {
    if v.foreground is None && v.background is None {
        Symbol::Esc.text() + Symbol::LeftBrackets.text() + attribute_list(v.attributes)
    } else if v.attributes.len() > 0 {
        Symbol::Semicolon.text() + attribute_list(v.attributes)
    } else {
        Seq::empty()
    }
}

/// What a value looks like on the wire. A plain value is its text and
/// nothing else. Any other value is one bracket group, holding the
/// foreground, background and attribute fields in that order and closed by
/// the mode letter, then the text, then the reset sequence.
pub open spec fn render(v: StyledValue) -> Seq<char> {
    if v.plain {
        v.text
    } else {
        foreground_field(v) + background_field(v) + attribute_field(v) + Symbol::Mode.text()
            + v.text + Symbol::Reset.text()
    }
}

/// The background selector as a string slice.
fn background_selector_str() -> (s: &'static str)
    ensures
        s@ == background_selector(),
{
    proof {
        reveal_strlit("48;5;");
    }
    "48;5;"
}

/// Appends the attribute list of `attributes` to `out`.
fn push_attribute_list(out: &mut String, attributes: &Vec<Style>)
    ensures
        final(out)@ == old(out)@ + attribute_list(attributes@),
{
    let mut i: usize = 0;
    while i < attributes.len()
        invariant
            i <= attributes.len(),
            out@ == old(out)@ + attribute_list(attributes@.take(i as int)),
        decreases attributes.len() - i,
    {
        if i > 0 {
            out.append(Symbol::Semicolon.to_str());
        }
        push_decimal(out, attributes[i].code());
        assert(attributes@.take(i + 1).drop_last() =~= attributes@.take(i as int));
        i += 1;
    }
    assert(attributes@.take(i as int) =~= attributes@);
}

/// The escape-coded form of the value with this text, these colours, these
/// attributes and this plain flag. Every combination is rendered, also
/// those the styling operations never produce.
pub fn render_parts(
    text: &str,
    foreground: Option<Color>,
    background: Option<Color>,
    attributes: &Vec<Style>,
    plain: bool,
) -> (out: String)
    ensures
        out@ == render(
            (StyledValue {
                text: text@,
                foreground,
                background,
                attributes: attributes@,
                plain,
            }),
        ),
{
    if plain {
        return text.to_owned();
    }
    let mut out = String::new();
    let mut emitted = false;
    if let Some(c) = foreground {
        out.append(Symbol::Screen256Foreground.to_str());
        push_decimal(&mut out, c.code());
        emitted = true;
    }
    if let Some(c) = background {
        if emitted {
            out.append(Symbol::Semicolon.to_str());
            out.append(background_selector_str());
        } else {
            out.append(Symbol::Screen256Background.to_str());
        }
        push_decimal(&mut out, c.code());
        emitted = true;
    }
    if !emitted {
        out.append(Symbol::Esc.to_str());
        out.append(Symbol::LeftBrackets.to_str());
    } else if attributes.len() > 0 {
        out.append(Symbol::Semicolon.to_str());
    }
    push_attribute_list(&mut out, attributes);
    out.append(Symbol::Mode.to_str());
    out.append(text);
    out.append(Symbol::Reset.to_str());
    out
}

} // verus!
