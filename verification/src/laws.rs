//! What holds of the styling operations and of rendering, for every text,
//! colour and attribute.

use vstd::prelude::*;
use crate::ansi::{Color, Style, Symbol};
use crate::decimal::decimal;
use crate::model::StyledValue;
use crate::render::{attribute_field, attribute_list, background_selector, render};

verus! {

/// A plain value renders as its text, with no escape character added; so
/// does every raw string.
pub proof fn lemma_plain_renders_as_text(v: StyledValue)
    ensures
        v.plain ==> render(v) == v.text,
        render(StyledValue::raw(v.text)) == v.text,
{
}

/// A raw string that takes one colour renders as the foreground introducer,
/// that colour's palette index, the mode letter, the text and the reset
/// sequence: no background field and no attribute field.
pub proof fn lemma_color_renders_foreground_only(text: Seq<char>, color: Color)
    ensures
        render(StyledValue::raw(text).with_color(color)) == Symbol::Screen256Foreground.text()
            + decimal(color.index()) + Symbol::Mode.text() + text + Symbol::Reset.text(),
{
    assert(render(StyledValue::raw(text).with_color(color))
        =~= Symbol::Screen256Foreground.text() + decimal(color.index()) + Symbol::Mode.text()
        + text + Symbol::Reset.text());
}

/// A second colour replaces the first: the value is the one that took only
/// the second colour, so its rendering holds one foreground field, with the
/// second colour's palette index.
pub proof fn lemma_color_replaces(v: StyledValue, first: Color, second: Color)
    ensures
        v.with_color(first).with_color(second) == v.with_color(second),
        render(v.with_color(first).with_color(second)) == render(v.with_color(second)),
        render(StyledValue::raw(v.text).with_color(first).with_color(second))
            == Symbol::Screen256Foreground.text() + decimal(second.index()) + Symbol::Mode.text()
            + v.text + Symbol::Reset.text(),
{
    lemma_color_renders_foreground_only(v.text, second);
    assert(StyledValue::raw(v.text).with_color(first).with_color(second) == StyledValue::raw(
        v.text,
    ).with_color(second));
}

/// Adding an attribute to a list that is not empty appends the separator
/// and the attribute's parameter to what the list rendered as before; added
/// to the empty list, the attribute's parameter stands alone.
pub proof fn lemma_attribute_list_push(attributes: Seq<Style>, style: Style)
    ensures
        attribute_list(attributes.push(style)) == if attributes.len() == 0 {
            decimal(style.number())
        } else {
            attribute_list(attributes) + Symbol::Semicolon.text() + decimal(style.number())
        },
{
    assert(attributes.push(style).drop_last() =~= attributes);
}

/// Attributes accumulate in the order they were added: the value holds its
/// earlier attributes followed by the two new ones, and a raw string that
/// takes two attributes renders them as `first;second` in one bracket group.
pub proof fn lemma_style_accumulates(v: StyledValue, first: Style, second: Style)
    ensures
        v.with_style(first).with_style(second).attributes == v.attributes + seq![first, second],
        render(StyledValue::raw(v.text).with_style(first).with_style(second)) == Symbol::Esc.text()
            + Symbol::LeftBrackets.text() + decimal(first.number()) + Symbol::Semicolon.text()
            + decimal(second.number()) + Symbol::Mode.text() + v.text + Symbol::Reset.text(),
{
    assert(v.with_style(first).with_style(second).attributes =~= v.attributes + seq![
        first,
        second,
    ]);
    let none = Seq::<Style>::empty();
    lemma_attribute_list_push(none, first);
    lemma_attribute_list_push(none.push(first), second);
    assert(render(StyledValue::raw(v.text).with_style(first).with_style(second))
        =~= Symbol::Esc.text() + Symbol::LeftBrackets.text() + decimal(first.number())
        + Symbol::Semicolon.text() + decimal(second.number()) + Symbol::Mode.text() + v.text
        + Symbol::Reset.text());
}

/// Colour and attribute may be applied in either order: the value is the
/// same, and so is its rendering, in which the foreground field comes before
/// the attribute.
pub proof fn lemma_color_and_style_commute(v: StyledValue, color: Color, style: Style)
    ensures
        v.with_color(color).with_style(style) == v.with_style(style).with_color(color),
        render(v.with_color(color).with_style(style)) == render(
            v.with_style(style).with_color(color),
        ),
        render(StyledValue::raw(v.text).with_color(color).with_style(style))
            == Symbol::Screen256Foreground.text() + decimal(color.index())
            + Symbol::Semicolon.text() + decimal(style.number()) + Symbol::Mode.text() + v.text
            + Symbol::Reset.text(),
{
    lemma_attribute_list_push(Seq::<Style>::empty(), style);
    assert(render(StyledValue::raw(v.text).with_color(color).with_style(style))
        =~= Symbol::Screen256Foreground.text() + decimal(color.index())
        + Symbol::Semicolon.text() + decimal(style.number()) + Symbol::Mode.text() + v.text
        + Symbol::Reset.text());
}

/// The background introducer is the escape character, the bracket and the
/// background selector.
pub proof fn lemma_background_introducer_opens_selector()
    ensures
        Symbol::Screen256Background.text() == Symbol::Esc.text() + Symbol::LeftBrackets.text()
            + background_selector(),
{
    assert(Symbol::Screen256Background.text() =~= Symbol::Esc.text()
        + Symbol::LeftBrackets.text() + background_selector());
}

/// A value with both colours renders them in one bracket group: the
/// foreground introducer and index, the separator, the background selector
/// and index, then the separator and the attribute list where there are
/// attributes, the mode letter, the text and the reset sequence.
pub proof fn lemma_both_colors_share_one_group(v: StyledValue, fore: Color, back: Color)
    requires
        !v.plain,
        v.foreground == Some(fore),
        v.background == Some(back),
    ensures
        render(v) == Symbol::Screen256Foreground.text() + decimal(fore.index())
            + Symbol::Semicolon.text() + background_selector() + decimal(back.index()) + (
        if v.attributes.len() > 0 {
            Symbol::Semicolon.text() + attribute_list(v.attributes)
        } else {
            Seq::empty()
        }) + Symbol::Mode.text() + v.text + Symbol::Reset.text(),
{
    assert(render(v) =~= Symbol::Screen256Foreground.text() + decimal(fore.index())
        + Symbol::Semicolon.text() + background_selector() + decimal(back.index())
        + attribute_field(v) + Symbol::Mode.text() + v.text + Symbol::Reset.text());
}

/// A value with a background and no foreground opens its bracket group with
/// the background introducer.
pub proof fn lemma_background_alone_opens_group(v: StyledValue, back: Color)
    requires
        !v.plain,
        v.foreground is None,
        v.background == Some(back),
    ensures
        render(v) == Symbol::Screen256Background.text() + decimal(back.index()) + (
        if v.attributes.len() > 0 {
            Symbol::Semicolon.text() + attribute_list(v.attributes)
        } else {
            Seq::empty()
        }) + Symbol::Mode.text() + v.text + Symbol::Reset.text(),
{
    assert(render(v) =~= Symbol::Screen256Background.text() + decimal(back.index())
        + attribute_field(v) + Symbol::Mode.text() + v.text + Symbol::Reset.text());
}

/// A value that is not plain and has nothing attached still renders a
/// bracket group, which is then empty.
pub proof fn lemma_bare_group(v: StyledValue)
    requires
        !v.plain,
        v.is_bare(),
    ensures
        render(v) == Symbol::Esc.text() + Symbol::LeftBrackets.text() + Symbol::Mode.text()
            + v.text + Symbol::Reset.text(),
{
    assert(render(v) =~= Symbol::Esc.text() + Symbol::LeftBrackets.text() + Symbol::Mode.text()
        + v.text + Symbol::Reset.text());
}

/// Whatever is attached, a value that is not plain renders as a bracket
/// group that starts with the escape character and the bracket, then the
/// text, then the reset sequence.
pub proof fn lemma_styled_render_frame(v: StyledValue)
    requires
        !v.plain,
    ensures
        render(v).len() >= v.text.len() + 7,
        render(v)[0] == '\x1B',
        render(v)[1] == '[',
        render(v).subrange(render(v).len() - v.text.len() - 4, render(v).len() - 4) == v.text,
        render(v).subrange(render(v).len() - 4, render(v).len() as int) == Symbol::Reset.text(),
        render(v)[render(v).len() - v.text.len() - 5] == 'm',
{
}

/// The styling operations never leave the reachable states, and what they
/// give is never plain.
pub proof fn lemma_operations_stay_reachable(v: StyledValue, color: Color, style: Style)
    ensures
        StyledValue::raw(v.text).reachable(),
        v.with_color(color).reachable(),
        v.with_style(style).reachable(),
        !v.with_color(color).plain,
        !v.with_style(style).plain,
{
}

} // verus!
