//! Colours, text modifiers and styled pieces of text, as plain values.

use vstd::prelude::*;

verus! {

/// Bold text.
pub const BOLD: u16 = 0x001;

/// Dimmed text.
pub const DIM: u16 = 0x002;

/// Italic text.
pub const ITALIC: u16 = 0x004;

/// Underlined text.
pub const UNDERLINED: u16 = 0x008;

/// Struck-through text.
pub const CROSSED_OUT: u16 = 0x100;

/// A terminal colour.
#[derive(Clone, Copy, Debug, PartialEq, Eq)]
pub enum Color {
    Red,
    Green,
    Yellow,
    Blue,
    Cyan,
    Gray,
    DarkGray,
    LightGreen,
    LightYellow,
    White,
    Rgb(u8, u8, u8),
}

/// How a piece of text is drawn: optional colours, the modifiers that are
/// switched on and those that are switched off.
#[derive(Clone, Copy, Debug, PartialEq, Eq)]
pub struct TextStyle {
    pub fg: Option<Color>,
    pub bg: Option<Color>,
    pub add_modifier: u16,
    pub sub_modifier: u16,
}

impl TextStyle {
    /// The style that changes nothing.
    pub open spec fn spec_plain() -> TextStyle {
        TextStyle { fg: None, bg: None, add_modifier: 0, sub_modifier: 0 }
    }

    /// `self` with the foreground colour `color`.
    pub open spec fn spec_fg(self, color: Color) -> TextStyle {
        TextStyle { fg: Some(color), ..self }
    }

    /// `self` with the background colour `color`.
    pub open spec fn spec_bg(self, color: Color) -> TextStyle {
        TextStyle { bg: Some(color), ..self }
    }

    /// `self` with the modifiers in `modifier` switched on.
    pub open spec fn spec_add_modifier(self, modifier: u16) -> TextStyle {
        TextStyle {
            add_modifier: self.add_modifier | modifier,
            sub_modifier: self.sub_modifier & !modifier,
            ..self
        }
    }

    /// `self` with `other` applied on top of it: the colours of `other`
    /// win where it has any, and its modifiers override those of `self`.
    pub open spec fn spec_patch(self, other: TextStyle) -> TextStyle {
        TextStyle {
            fg: if other.fg.is_some() { other.fg } else { self.fg },
            bg: if other.bg.is_some() { other.bg } else { self.bg },
            add_modifier: (self.add_modifier & !other.sub_modifier) | other.add_modifier,
            sub_modifier: (self.sub_modifier & !other.add_modifier) | other.sub_modifier,
        }
    }

    #[verifier::when_used_as_spec(spec_plain)]
    pub fn plain() -> (r: TextStyle)
        ensures
            r == Self::spec_plain(),
    {
        TextStyle { fg: None, bg: None, add_modifier: 0, sub_modifier: 0 }
    }

    #[verifier::when_used_as_spec(spec_fg)]
    pub fn fg(self, color: Color) -> (r: TextStyle)
        ensures
            r == self.spec_fg(color),
    {
        TextStyle { fg: Some(color), bg: self.bg, add_modifier: self.add_modifier, sub_modifier: self.sub_modifier }
    }

    #[verifier::when_used_as_spec(spec_bg)]
    pub fn bg(self, color: Color) -> (r: TextStyle)
        ensures
            r == self.spec_bg(color),
    {
        TextStyle { fg: self.fg, bg: Some(color), add_modifier: self.add_modifier, sub_modifier: self.sub_modifier }
    }

    #[verifier::when_used_as_spec(spec_add_modifier)]
    pub fn add_modifier(self, modifier: u16) -> (r: TextStyle)
        ensures
            r == self.spec_add_modifier(modifier),
    {
        TextStyle {
            fg: self.fg,
            bg: self.bg,
            add_modifier: self.add_modifier | modifier,
            sub_modifier: self.sub_modifier & !modifier,
        }
    }

    #[verifier::when_used_as_spec(spec_patch)]
    pub fn patch(self, other: TextStyle) -> (r: TextStyle)
        ensures
            r == self.spec_patch(other),
    {
        TextStyle {
            fg: if other.fg.is_some() { other.fg } else { self.fg },
            bg: if other.bg.is_some() { other.bg } else { self.bg },
            add_modifier: (self.add_modifier & !other.sub_modifier) | other.add_modifier,
            sub_modifier: (self.sub_modifier & !other.add_modifier) | other.sub_modifier,
        }
    }
}

impl Default for TextStyle {
    /// The plain style.
    fn default() -> (r: TextStyle)
        ensures
            r == TextStyle::spec_plain(),
    {
        TextStyle::plain()
    }
}

/// A piece of text with one style.
#[derive(Clone, Debug, PartialEq, Eq)]
pub struct Span {
    pub text: String,
    pub style: TextStyle,
}

impl Span {
    /// Text and style of the span, as a pair of plain values.
    pub open spec fn view(&self) -> (Seq<char>, TextStyle) {
        (self.text@, self.style)
    }

    /// A span of `text` without styling.
    pub fn raw(text: &str) -> (r: Span)
        ensures
            r@ == (text@, TextStyle::spec_plain()),
    {
        Span { text: text.to_owned(), style: TextStyle::plain() }
    }

    /// A span of `text` drawn with `style`.
    pub fn styled(text: &str, style: TextStyle) -> (r: Span)
        ensures
            r@ == (text@, style),
    {
        Span { text: text.to_owned(), style }
    }
}

/// The views of the spans of a line, in order.
pub open spec fn line_view(line: Seq<Span>) -> Seq<(Seq<char>, TextStyle)> {
    line.map_values(|s: Span| s@)
}

} // verus!
