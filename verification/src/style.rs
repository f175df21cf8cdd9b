use vstd::prelude::*;

verus! {

/// A terminal color: one of the eight named ANSI colors, an entry of the
/// 256-color palette, or a 24-bit value.
#[derive(Debug, Clone, Copy, PartialEq, Eq)]
pub enum Colour {
    Black,
    Red,
    Green,
    Yellow,
    Blue,
    Purple,
    Cyan,
    White,
    Fixed(u8),
    Rgb(u8, u8, u8),
}

/// A resolved terminal text style: an optional foreground color, an optional
/// background color, and the usual font attributes.
#[derive(Debug, Clone, Copy, PartialEq, Eq)]
pub struct TextStyle {
    pub foreground: Option<Colour>,
    pub background: Option<Colour>,
    pub is_bold: bool,
    pub is_dimmed: bool,
    pub is_italic: bool,
    pub is_underline: bool,
    pub is_blink: bool,
    pub is_reverse: bool,
    pub is_hidden: bool,
    pub is_strikethrough: bool,
}

impl TextStyle {
    /// The unstyled style: no colors, no font attributes.
    pub open spec fn spec_plain() -> TextStyle {
        TextStyle {
            foreground: None,
            background: None,
            is_bold: false,
            is_dimmed: false,
            is_italic: false,
            is_underline: false,
            is_blink: false,
            is_reverse: false,
            is_hidden: false,
            is_strikethrough: false,
        }
    }

    /// Foreground set to `fg`, nothing else.
    pub open spec fn spec_with_fg(fg: Colour) -> TextStyle {
        TextStyle { foreground: Some(fg), ..TextStyle::spec_plain() }
    }

    /// Foreground set to `fg` over background `bg`, nothing else.
    pub open spec fn spec_with_fg_bg(fg: Colour, bg: Colour) -> TextStyle {
        TextStyle { foreground: Some(fg), background: Some(bg), ..TextStyle::spec_plain() }
    }

    pub fn plain() -> (s: TextStyle)
        ensures
            s == TextStyle::spec_plain(),
    {
        TextStyle {
            foreground: None,
            background: None,
            is_bold: false,
            is_dimmed: false,
            is_italic: false,
            is_underline: false,
            is_blink: false,
            is_reverse: false,
            is_hidden: false,
            is_strikethrough: false,
        }
    }

    pub fn with_fg(fg: Colour) -> (s: TextStyle)
        ensures
            s == TextStyle::spec_with_fg(fg),
    {
        TextStyle { foreground: Some(fg), ..TextStyle::plain() }
    }

    pub fn with_fg_bg(fg: Colour, bg: Colour) -> (s: TextStyle)
        ensures
            s == TextStyle::spec_with_fg_bg(fg, bg),
    {
        TextStyle { foreground: Some(fg), background: Some(bg), ..TextStyle::plain() }
    }
}

/// A piece of text together with the style resolved for it.
#[derive(Debug, Clone, PartialEq, Eq)]
pub struct ColoredString {
    pub style: TextStyle,
    pub text: String,
}

} // verus!
