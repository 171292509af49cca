//! Colors, text attributes and styled content.
use vstd::prelude::*;
use crossterm::style::Color as NativeColor;

verus! {

/// A terminal color: a named color, a palette index or an RGB triple.
#[derive(Clone, Copy, Debug, PartialEq, Eq, Structural)]
pub enum Color {
    Black,
    LightRed,
    DarkRed,
    LightGreen,
    DarkGreen,
    LightYellow,
    DarkYellow,
    LightBlue,
    DarkBlue,
    LightMagenta,
    DarkMagenta,
    LightCyan,
    DarkCyan,
    White,
    Grey,
    DarkGrey,
    Rgb { r: u8, g: u8, b: u8 },
    AnsiValue(u8),
}

pub const BOLD_BIT: u8 = 1;

pub const ITALIC_BIT: u8 = 2;

/// A set of text attributes; the empty set applies no styling.
#[derive(Clone, Copy, Debug, PartialEq, Eq, Structural)]
pub struct Attributes {
    pub bits: u8,
}

impl Attributes {
    pub open spec fn has(self, bit: u8) -> bool {
        self.bits & bit == bit
    }

    pub fn empty() -> (r: Attributes)
        ensures
            r.bits == 0,
    {
        Attributes { bits: 0 }
    }

    pub fn bold() -> (r: Attributes)
        ensures
            r.bits == BOLD_BIT,
    {
        Attributes { bits: BOLD_BIT }
    }

    pub fn italic() -> (r: Attributes)
        ensures
            r.bits == ITALIC_BIT,
    {
        Attributes { bits: ITALIC_BIT }
    }

    pub fn union(&self, other: Attributes) -> (r: Attributes)
        ensures
            r.bits == self.bits | other.bits,
    {
        Attributes { bits: self.bits | other.bits }
    }

    pub fn contains(&self, other: Attributes) -> (r: bool)
        ensures
            r == self.has(other.bits),
    {
        self.bits & other.bits == other.bits
    }

    pub fn is_empty(&self) -> (r: bool)
        ensures
            r == (self.bits == 0),
    {
        self.bits == 0
    }
}

/// Foreground, background and attributes of a piece of text.
#[derive(Clone, Copy, Debug, PartialEq, Eq, Structural)]
pub struct StyleSheet {
    pub fg: Option<Color>,
    pub bg: Option<Color>,
    pub att: Attributes,
}

impl StyleSheet {
    pub fn new() -> (r: StyleSheet)
        ensures
            r.fg is None,
            r.bg is None,
            r.att.bits == 0,
    {
        StyleSheet { fg: None, bg: None, att: Attributes::empty() }
    }

    pub fn with_fg(self, c: Color) -> (r: StyleSheet)
        ensures
            r == (StyleSheet { fg: Some(c), ..self }),
    {
        StyleSheet { fg: Some(c), ..self }
    }

    pub fn with_bg(self, c: Color) -> (r: StyleSheet)
        ensures
            r == (StyleSheet { bg: Some(c), ..self }),
    {
        StyleSheet { bg: Some(c), ..self }
    }

    pub fn with_attr(self, a: Attributes) -> (r: StyleSheet)
        ensures
            r.att.bits == self.att.bits | a.bits,
            r.fg == self.fg,
            r.bg == self.bg,
    {
        StyleSheet { att: self.att.union(a), ..self }
    }
}

/// Text paired with the style to render it in.
#[derive(Clone, Debug)]
pub struct Styled {
    pub content: String,
    pub style: StyleSheet,
}

impl Styled {
    pub fn new(content: String) -> (r: Styled)
        ensures
            r.content@ == content@,
            r.style == (StyleSheet { fg: None, bg: None, att: Attributes { bits: 0 } }),
    {
        Styled { content, style: StyleSheet::new() }
    }

    pub fn with_style(self, style: StyleSheet) -> (r: Styled)
        ensures
            r.content@ == self.content@,
            r.style == style,
    {
        Styled { content: self.content, style }
    }
}

/// The backend's color for a logical one: light hues become the backend's
/// plain hues, dark hues its dark ones; indices and RGB pass through.
pub open spec fn native_color_of(c: Color) -> NativeColor {
    match c {
        Color::Black => NativeColor::Black,
        Color::LightRed => NativeColor::Red,
        Color::DarkRed => NativeColor::DarkRed,
        Color::LightGreen => NativeColor::Green,
        Color::DarkGreen => NativeColor::DarkGreen,
        Color::LightYellow => NativeColor::Yellow,
        Color::DarkYellow => NativeColor::DarkYellow,
        Color::LightBlue => NativeColor::Blue,
        Color::DarkBlue => NativeColor::DarkBlue,
        Color::LightMagenta => NativeColor::Magenta,
        Color::DarkMagenta => NativeColor::DarkMagenta,
        Color::LightCyan => NativeColor::Cyan,
        Color::DarkCyan => NativeColor::DarkCyan,
        Color::White => NativeColor::White,
        Color::Grey => NativeColor::Grey,
        Color::DarkGrey => NativeColor::DarkGrey,
        Color::Rgb { r, g, b } => NativeColor::Rgb { r, g, b },
        Color::AnsiValue(v) => NativeColor::AnsiValue(v),
    }
}

/// Maps every logical color to exactly one backend color.
pub fn native_color(c: Color) -> (r: NativeColor)
    ensures
        r == native_color_of(c),
        r != NativeColor::Reset,
{
    match c {
        Color::Black => NativeColor::Black,
        Color::LightRed => NativeColor::Red,
        Color::DarkRed => NativeColor::DarkRed,
        Color::LightGreen => NativeColor::Green,
        Color::DarkGreen => NativeColor::DarkGreen,
        Color::LightYellow => NativeColor::Yellow,
        Color::DarkYellow => NativeColor::DarkYellow,
        Color::LightBlue => NativeColor::Blue,
        Color::DarkBlue => NativeColor::DarkBlue,
        Color::LightMagenta => NativeColor::Magenta,
        Color::DarkMagenta => NativeColor::DarkMagenta,
        Color::LightCyan => NativeColor::Cyan,
        Color::DarkCyan => NativeColor::DarkCyan,
        Color::White => NativeColor::White,
        Color::Grey => NativeColor::Grey,
        Color::DarkGrey => NativeColor::DarkGrey,
        Color::Rgb { r, g, b } => NativeColor::Rgb { r, g, b },
        Color::AnsiValue(v) => NativeColor::AnsiValue(v),
    }
}

impl From<Color> for NativeColor {
    fn from(c: Color) -> (r: NativeColor) {
        native_color(c)
    }
}

impl vstd::std_specs::convert::FromSpecImpl<Color> for NativeColor {
    open spec fn obeys_from_spec() -> bool {
        true
    }

    open spec fn from_spec(c: Color) -> NativeColor {
        native_color_of(c)
    }
}

/// The color mapping is total and loses nothing: every color has a backend
/// color other than the reset, and no two colors share one.
pub proof fn lemma_color_mapping_total(c1: Color, c2: Color)
    ensures
        native_color_of(c1) != NativeColor::Reset,
        native_color_of(c1) == native_color_of(c2) ==> c1 == c2,
{
}

} // verus!
