//! Terminal text styling with ANSI escape sequences.
//!
//! A string slice or an already styled value takes a colour or a text
//! attribute and becomes a [`ColorfulString`]; rendering a `ColorfulString`
//! wraps its text in the escape sequence that selects what was attached.

use vstd::prelude::*;

pub mod ansi;
pub mod decimal;
pub mod laws;
pub mod model;
pub mod render;

use crate::ansi::{Color, Style};
use crate::model::StyledValue;
use crate::render::{render, render_parts};

verus! {

/// Text together with the colours and attributes attached to it.
pub struct ColorfulString {
    text: String,
    foreground_color: Option<Color>,
    background_color: Option<Color>,
    styles: Vec<Style>,
    is_plain: bool,
}

impl View for ColorfulString {
    type V = StyledValue;

    closed spec fn view(&self) -> StyledValue {
        StyledValue {
            text: self.text@,
            foreground: self.foreground_color,
            background: self.background_color,
            attributes: self.styles@,
            plain: self.is_plain,
        }
    }
}

impl Default for ColorfulString {
    /// The empty plain string.
    fn default() -> (r: ColorfulString)
        ensures
            r@ == StyledValue::raw(Seq::empty()),
    {
        ColorfulString {
            text: String::new(),
            foreground_color: None,
            background_color: None,
            styles: Vec::new(),
            is_plain: true,
        }
    }
}

impl ColorfulString {
    /// No value of this type is in a state the styling operations cannot
    /// produce.
    #[verifier::type_invariant]
    spec fn well_formed(self) -> bool {
        self@.reachable()
    }

    /// The plain value of a raw string: its text, with nothing attached.
    pub fn new(text: &str) -> (r: ColorfulString)
        ensures
            r@ == StyledValue::raw(text@),
    {
        ColorfulString {
            text: text.to_owned(),
            foreground_color: None,
            background_color: None,
            styles: Vec::new(),
            is_plain: true,
        }
    }

    /// The escape-coded form of this value. A plain value is its text; any
    /// other value has a colour or an attribute to show.
    pub fn to_string(&self) -> (s: String)
        ensures
            s@ == render(self@),
            self@.plain ==> s@ == self@.text,
            self@.reachable(),
    {
        proof {
            use_type_invariant(self);
        }
        render_parts(
            self.text.as_str(),
            self.foreground_color,
            self.background_color,
            &self.styles,
            self.is_plain,
        )
    }
}

/// Anything the styling operations can start from: it has a text and may
/// already carry colours and attributes.
pub trait StrMarker {
    /// The value as the styling operations see it.
    spec fn styled(&self) -> StyledValue;

    /// A copy of the text.
    fn to_str(&self) -> (s: String)
        ensures
            s@ == self.styled().text,
    ;

    /// A copy of the attributes in their stored order; `None` only where
    /// there is none.
    fn get_style(&self) -> (r: Option<Vec<Style>>)
        ensures
            match r {
                Some(v) => v@ == self.styled().attributes,
                None => self.styled().attributes.len() == 0,
            },
    ;

    /// The foreground colour, if one is set.
    fn get_fg_color(&self) -> (r: Option<Color>)
        ensures
            r == self.styled().foreground,
    ;

    /// The background colour, if one is set.
    fn get_bg_color(&self) -> (r: Option<Color>)
        ensures
            r == self.styled().background,
    ;
}

impl<'a> StrMarker for &'a str {
    /// A string slice is a plain value: it carries its text and nothing else.
    open spec fn styled(&self) -> StyledValue {
        StyledValue::raw(self@)
    }

    fn to_str(&self) -> (s: String) {
        (*self).to_owned()
    }

    fn get_style(&self) -> (r: Option<Vec<Style>>)
        ensures
            r is None,
    {
        None
    }

    fn get_fg_color(&self) -> (r: Option<Color>) {
        None
    }

    fn get_bg_color(&self) -> (r: Option<Color>) {
        None
    }
}

impl StrMarker for ColorfulString {
    /// A styled value is seen as exactly what it stores.
    open spec fn styled(&self) -> StyledValue {
        self.view()
    }

    fn to_str(&self) -> (s: String) {
        self.text.clone()
    }

    fn get_style(&self) -> (r: Option<Vec<Style>>)
        ensures
            r is None <==> self@.attributes.len() == 0,
    {
        if self.styles.len() == 0 {
            None
        } else {
            Some(copy_styles(&self.styles))
        }
    }

    fn get_fg_color(&self) -> (r: Option<Color>) {
        self.foreground_color
    }

    fn get_bg_color(&self) -> (r: Option<Color>) {
        self.background_color
    }
}

/// A fresh vector with the same attributes in the same order.
fn copy_styles(styles: &Vec<Style>) -> (r: Vec<Style>)
    ensures
        r@ == styles@,
{
    let mut r: Vec<Style> = Vec::new();
    let mut i: usize = 0;
    while i < styles.len()
        invariant
            i <= styles.len(),
            r@ == styles@.take(i as int),
        decreases styles.len() - i,
    {
        r.push(styles[i]);
        i += 1;
    }
    r
}

/// The two styling operations. Each consumes its receiver and gives a new
/// value; neither can fail.
pub trait Base: StrMarker + Sized {
    /// Sets the foreground colour, replacing any that was set, and keeps the
    /// text, the background and the attributes.
    fn color(self, color: Color) -> (r: ColorfulString)
        ensures
            r@ == self.styled().with_color(color),
    ;

    /// Adds an attribute after those already present, and keeps the text and
    /// both colours.
    fn style(self, style: Style) -> (r: ColorfulString)
        ensures
            r@ == self.styled().with_style(style),
    ;
}

impl<T> Base for T where T: StrMarker {
    fn color(self, color: Color) -> (r: ColorfulString) {
        let styles = match self.get_style() {
            Some(v) => v,
            None => Vec::new(),
        };
        let r = ColorfulString {
            text: self.to_str(),
            foreground_color: Some(color),
            background_color: self.get_bg_color(),
            styles,
            is_plain: false,
        };
        assert(r@.attributes =~= self.styled().attributes);
        r
    }

    fn style(self, style: Style) -> (r: ColorfulString) {
        let mut styles = match self.get_style() {
            Some(v) => v,
            None => Vec::new(),
        };
        styles.push(style);
        let r = ColorfulString {
            text: self.to_str(),
            foreground_color: self.get_fg_color(),
            background_color: self.get_bg_color(),
            styles,
            is_plain: false,
        };
        assert(r@.attributes =~= self.styled().attributes.push(style));
        r
    }
}

/// The attributes and the sixteen basic colours by name. Each method is the
/// styling operation of the same effect, with the constant filled in.
pub trait ColorStyleInterface: Base {
    /// Adds the attribute [`Style::Bold`].
    fn bold(self) -> (r: ColorfulString)
        ensures
            r@ == self.styled().with_style(Style::Bold),
    ;

    /// Adds the attribute [`Style::Blink`].
    fn blink(self) -> (r: ColorfulString)
        ensures
            r@ == self.styled().with_style(Style::Blink),
    ;

    /// Adds the attribute [`Style::Dim`].
    fn dim(self) -> (r: ColorfulString)
        ensures
            r@ == self.styled().with_style(Style::Dim),
    ;

    /// Adds the attribute [`Style::Underlined`].
    fn underlined(self) -> (r: ColorfulString)
        ensures
            r@ == self.styled().with_style(Style::Underlined),
    ;

    /// Adds the attribute [`Style::Reverse`].
    fn reverse(self) -> (r: ColorfulString)
        ensures
            r@ == self.styled().with_style(Style::Reverse),
    ;

    /// Adds the attribute [`Style::Hidden`].
    fn hidden(self) -> (r: ColorfulString)
        ensures
            r@ == self.styled().with_style(Style::Hidden),
    ;

    /// Sets the foreground to [`Color::Black`].
    fn black(self) -> (r: ColorfulString)
        ensures
            r@ == self.styled().with_color(Color::Black),
    ;

    /// Sets the foreground to [`Color::Red`].
    fn red(self) -> (r: ColorfulString)
        ensures
            r@ == self.styled().with_color(Color::Red),
    ;

    /// Sets the foreground to [`Color::Green`].
    fn green(self) -> (r: ColorfulString)
        ensures
            r@ == self.styled().with_color(Color::Green),
    ;

    /// Sets the foreground to [`Color::Yellow`].
    fn yellow(self) -> (r: ColorfulString)
        ensures
            r@ == self.styled().with_color(Color::Yellow),
    ;

    /// Sets the foreground to [`Color::Blue`].
    fn blue(self) -> (r: ColorfulString)
        ensures
            r@ == self.styled().with_color(Color::Blue),
    ;

    /// Sets the foreground to [`Color::Magenta`].
    fn magenta(self) -> (r: ColorfulString)
        ensures
            r@ == self.styled().with_color(Color::Magenta),
    ;

    /// Sets the foreground to [`Color::Cyan`].
    fn cyan(self) -> (r: ColorfulString)
        ensures
            r@ == self.styled().with_color(Color::Cyan),
    ;

    /// Sets the foreground to [`Color::LightGray`].
    fn light_gray(self) -> (r: ColorfulString)
        ensures
            r@ == self.styled().with_color(Color::LightGray),
    ;

    /// Sets the foreground to [`Color::DarkGray`].
    fn dark_gray(self) -> (r: ColorfulString)
        ensures
            r@ == self.styled().with_color(Color::DarkGray),
    ;

    /// Sets the foreground to [`Color::LightRed`].
    fn light_red(self) -> (r: ColorfulString)
        ensures
            r@ == self.styled().with_color(Color::LightRed),
    ;

    /// Sets the foreground to [`Color::LightGreen`].
    fn light_green(self) -> (r: ColorfulString)
        ensures
            r@ == self.styled().with_color(Color::LightGreen),
    ;

    /// Sets the foreground to [`Color::LightYellow`].
    fn light_yellow(self) -> (r: ColorfulString)
        ensures
            r@ == self.styled().with_color(Color::LightYellow),
    ;

    /// Sets the foreground to [`Color::LightBlue`].
    fn light_blue(self) -> (r: ColorfulString)
        ensures
            r@ == self.styled().with_color(Color::LightBlue),
    ;

    /// Sets the foreground to [`Color::LightMagenta`].
    fn light_magenta(self) -> (r: ColorfulString)
        ensures
            r@ == self.styled().with_color(Color::LightMagenta),
    ;

    /// Sets the foreground to [`Color::LightCyan`].
    fn light_cyan(self) -> (r: ColorfulString)
        ensures
            r@ == self.styled().with_color(Color::LightCyan),
    ;

    /// Sets the foreground to [`Color::White`].
    fn white(self) -> (r: ColorfulString)
        ensures
            r@ == self.styled().with_color(Color::White),
    ;
}

impl<T> ColorStyleInterface for T where T: Base {
    fn bold(self) -> (r: ColorfulString) {
        self.style(Style::Bold)
    }

    fn blink(self) -> (r: ColorfulString) {
        self.style(Style::Blink)
    }

    fn dim(self) -> (r: ColorfulString) {
        self.style(Style::Dim)
    }

    fn underlined(self) -> (r: ColorfulString) {
        self.style(Style::Underlined)
    }

    fn reverse(self) -> (r: ColorfulString) {
        self.style(Style::Reverse)
    }

    fn hidden(self) -> (r: ColorfulString) {
        self.style(Style::Hidden)
    }

    fn black(self) -> (r: ColorfulString) {
        self.color(Color::Black)
    }

    fn red(self) -> (r: ColorfulString) {
        self.color(Color::Red)
    }

    fn green(self) -> (r: ColorfulString) {
        self.color(Color::Green)
    }

    fn yellow(self) -> (r: ColorfulString) {
        self.color(Color::Yellow)
    }

    fn blue(self) -> (r: ColorfulString) {
        self.color(Color::Blue)
    }

    fn magenta(self) -> (r: ColorfulString) {
        self.color(Color::Magenta)
    }

    fn cyan(self) -> (r: ColorfulString) {
        self.color(Color::Cyan)
    }

    fn light_gray(self) -> (r: ColorfulString) {
        self.color(Color::LightGray)
    }

    fn dark_gray(self) -> (r: ColorfulString) {
        self.color(Color::DarkGray)
    }

    fn light_red(self) -> (r: ColorfulString) {
        self.color(Color::LightRed)
    }

    fn light_green(self) -> (r: ColorfulString) {
        self.color(Color::LightGreen)
    }

    fn light_yellow(self) -> (r: ColorfulString) {
        self.color(Color::LightYellow)
    }

    fn light_blue(self) -> (r: ColorfulString) {
        self.color(Color::LightBlue)
    }

    fn light_magenta(self) -> (r: ColorfulString) {
        self.color(Color::LightMagenta)
    }

    fn light_cyan(self) -> (r: ColorfulString) {
        self.color(Color::LightCyan)
    }

    fn white(self) -> (r: ColorfulString) {
        self.color(Color::White)
    }
}

/// Colours of the extended palette by name.
pub trait ExtraColorInterface: Base {
    /// Sets the foreground to [`Color::Grey0`].
    fn grey0(self) -> (r: ColorfulString)
        ensures
            r@ == self.styled().with_color(Color::Grey0),
    ;
}

impl<T> ExtraColorInterface for T where T: Base {
    fn grey0(self) -> (r: ColorfulString) {
        self.color(Color::Grey0)
    }
}

} // verus!
