use vstd::prelude::*;

verus! {

#[verifier::external_type_specification]
#[verifier::external_body]
pub struct ExLsColors(lscolors::LsColors);

#[verifier::external_type_specification]
#[verifier::external_body]
pub struct ExLsStyle(lscolors::Style);

#[verifier::external_type_specification]
#[verifier::external_body]
pub struct ExLsColor(lscolors::style::Color);

/// What an override source holds for indicator-based resolution: the style
/// registered under each two-letter indicator code the source recognizes and
/// has a style for. `lscolors::LsColors::style_for_indicator` is a pure
/// lookup in the source's own table, so the map is a function of the source
/// value alone.
pub uninterp spec fn indicator_styles(ls: lscolors::LsColors) -> Map<Seq<char>, crate::style::TextStyle>;

/// Relies on lscolors::LsColors::from_env: builds an override source from the
/// process environment's configuration, falling back to the crate's default
/// styles when none is set. Nothing is promised of the result's contents.
#[verifier::external_body]
pub(crate) fn lscolors_from_env() -> lscolors::LsColors {
    lscolors::LsColors::from_env().unwrap_or_default()
}

/// Relies on lscolors::Indicator::from and lscolors::LsColors::
/// style_for_indicator: together a deterministic lookup of the style the
/// source registers under a two-letter code, `None` when the code is unknown
/// or carries no style.
#[verifier::external_body]
pub(crate) fn style_for_indicator_code(ls: &lscolors::LsColors, code: &str) -> (r: Option<
    crate::style::TextStyle,
>)
    ensures
        r is Some <==> indicator_styles(*ls).dom().contains(code@),
        r matches Some(s) ==> s == indicator_styles(*ls)[code@],
{
    match lscolors::Indicator::from(code) {
        Some(indicator) => ls.style_for_indicator(indicator).map(style_from_ls),
        None => None,
    }
}

/// Relies on lscolors::LsColors::style_for_path: suffix and file-type rules
/// that consult the path's metadata on disk, so nothing is promised of the
/// outcome.
#[verifier::external_body]
pub(crate) fn style_for_path_str(ls: &lscolors::LsColors, path: &str) -> Option<crate::style::TextStyle> {
    ls.style_for_path(path).map(|s| style_from_ls(s))
}

/// Relies on the public fields of lscolors::Style: carries foreground,
/// background and font attributes over one for one, merging the two blink
/// flags as lscolors::Style::to_ansi_term_style does.
#[verifier::external_body]
fn style_from_ls(s: &lscolors::Style) -> crate::style::TextStyle {
    crate::style::TextStyle {
        foreground: s.foreground.as_ref().map(color_from_ls),
        background: s.background.as_ref().map(color_from_ls),
        is_bold: s.font_style.bold,
        is_dimmed: s.font_style.dimmed,
        is_italic: s.font_style.italic,
        is_underline: s.font_style.underline,
        is_blink: s.font_style.slow_blink || s.font_style.rapid_blink,
        is_reverse: s.font_style.reverse,
        is_hidden: s.font_style.hidden,
        is_strikethrough: s.font_style.strikethrough,
    }
}

/// Relies on the variants of lscolors::style::Color: one arm each, with
/// Magenta carried to Purple as lscolors::style::Color::to_ansi_term_color
/// names it.
#[verifier::external_body]
fn color_from_ls(c: &lscolors::style::Color) -> crate::style::Colour {
    match c {
        lscolors::style::Color::Black => crate::style::Colour::Black,
        lscolors::style::Color::Red => crate::style::Colour::Red,
        lscolors::style::Color::Green => crate::style::Colour::Green,
        lscolors::style::Color::Yellow => crate::style::Colour::Yellow,
        lscolors::style::Color::Blue => crate::style::Colour::Blue,
        lscolors::style::Color::Magenta => crate::style::Colour::Purple,
        lscolors::style::Color::Cyan => crate::style::Colour::Cyan,
        lscolors::style::Color::White => crate::style::Colour::White,
        lscolors::style::Color::Fixed(n) => crate::style::Colour::Fixed(*n),
        lscolors::style::Color::RGB(r, g, b) => crate::style::Colour::Rgb(*r, *g, *b),
    }
}

} // verus!
