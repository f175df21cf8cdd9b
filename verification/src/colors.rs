use vstd::prelude::*;

use crate::elem::Elem;
use crate::elem::spec_indicator_code;
use crate::source::indicator_styles;
use crate::source::lscolors_from_env;
use crate::source::style_for_indicator_code;
use crate::source::style_for_path_str;
use crate::style::ColoredString;
use crate::style::Colour;
use crate::style::TextStyle;
use crate::table::ColorTable;
use crate::table::light_theme_color;

verus! {

/// The palette index of the warning background laid over table-resolved
/// foregrounds of setuid/setgid classifications.
pub const SUID_BACKGROUND: u8 = 124;

/// The three mutually exclusive resolver modes, fixed at construction: no
/// coloring at all, built-in table plus override source, or built-in table
/// alone.
#[derive(Debug, Clone, Copy)]
pub enum Theme {
    NoColor,
    Default,
    NoLscolors,
}

/// The style resolver: an optional built-in color table (absent only in
/// no-color mode) and an optional override source (present only in default
/// mode). Both are fixed at construction and never written again.
pub struct Colors {
    colors: Option<ColorTable>,
    lscolors: Option<lscolors::LsColors>,
}

impl Colors {
    /// Whether the built-in table is active.
    pub closed spec fn has_table(self) -> bool {
        self.colors is Some
    }

    /// Whether the override source is active.
    pub closed spec fn has_overrides(self) -> bool {
        self.lscolors is Some
    }

    /// The styles the active override source registers per indicator code;
    /// empty when no source is active.
    pub closed spec fn indicator_overrides(self) -> Map<Seq<char>, TextStyle> {
        match self.lscolors {
            Some(ls) => indicator_styles(ls),
            None => Map::empty(),
        }
    }

    /// The style the built-in table resolves for `e`: the table's foreground,
    /// with the warning background added exactly on the setuid/setgid
    /// classifications; plain when no table is active.
    pub open spec fn spec_style_default(self, e: Elem) -> TextStyle {
        if self.has_table() {
            if e.spec_has_suid() {
                TextStyle::spec_with_fg_bg(light_theme_color(e), Colour::Fixed(SUID_BACKGROUND))
            } else {
                TextStyle::spec_with_fg(light_theme_color(e))
            }
        } else {
            TextStyle::spec_plain()
        }
    }

    /// The fully resolved style for a classification. With an active override
    /// source, a style registered under the classification's indicator code
    /// wins and is used as-is; classifications without a code, or codes the
    /// source does not register, fall back to the built-in table.
    pub open spec fn spec_style(self, e: Elem) -> TextStyle {
        if self.has_overrides() {
            match spec_indicator_code(e) {
                Some(code) => if self.indicator_overrides().dom().contains(code) {
                    self.indicator_overrides()[code]
                } else {
                    self.spec_style_default(e)
                },
                None => self.spec_style_default(e),
            }
        } else {
            self.spec_style_default(e)
        }
    }

    /// Builds a resolver for the given mode; the override source, when the
    /// mode calls for one, comes from the process environment.
    pub fn new(theme: Theme) -> (c: Colors)
        ensures
            c.has_table() <==> !(theme is NoColor),
            c.has_overrides() <==> theme is Default,
    {
        let colors = match theme {
            Theme::NoColor => None,
            Theme::Default => Some(ColorTable::light_theme()),
            Theme::NoLscolors => Some(ColorTable::light_theme()),
        };
        let lscolors = match theme {
            Theme::NoColor => None,
            Theme::Default => Some(lscolors_from_env()),
            Theme::NoLscolors => None,
        };
        Colors { colors, lscolors }
    }

    /// Builds a resolver whose override source, in default mode, is supplied
    /// by the caller instead of being read from the environment; the other
    /// modes ignore it.
    pub fn with_source(theme: Theme, source: lscolors::LsColors) -> (c: Colors)
        ensures
            c.has_table() <==> !(theme is NoColor),
            c.has_overrides() <==> theme is Default,
            theme is Default ==> c.indicator_overrides() == indicator_styles(source),
    {
        let colors = match theme {
            Theme::NoColor => None,
            Theme::Default => Some(ColorTable::light_theme()),
            Theme::NoLscolors => Some(ColorTable::light_theme()),
        };
        let lscolors = match theme {
            Theme::Default => Some(source),
            Theme::NoColor => None,
            Theme::NoLscolors => None,
        };
        Colors { colors, lscolors }
    }

    /// Styles `input` with the style resolved for `elem`.
    pub fn colorize(&self, input: String, elem: &Elem) -> (r: ColoredString)
        ensures
            r.style == self.spec_style(*elem),
            r.text@ == input@,
    {
        ColoredString { style: self.style(elem), text: input }
    }

    /// Styles `input`, letting a style the override source registers for
    /// `path` win over everything; without one, resolution falls back to
    /// `colorize` on `elem`. The path lookup consults the override source's
    /// rules and the path's metadata on disk, so only the fallback case is
    /// pinned here; `resolve_with_path_style` states how each lookup outcome
    /// is treated.
    pub fn colorize_using_path(&self, input: String, path: &str, elem: &Elem) -> (r:
        ColoredString)
        ensures
            r.text@ == input@,
            !self.has_overrides() ==> r.style == self.spec_style(*elem),
    {
        let found = self.style_from_path(path);
        self.resolve_with_path_style(input, found, elem)
    }

    /// Resolution once the outcome of a per-path lookup is known: a style
    /// found for the path is used verbatim, with no highlight added;
    /// otherwise the classification decides, exactly as in `colorize`.
    pub fn resolve_with_path_style(&self, input: String, found: Option<TextStyle>, elem: &Elem) -> (r: ColoredString)
        ensures
            r.text@ == input@,
            found matches Some(s) ==> r.style == s,
            found is None ==> r.style == self.spec_style(*elem),
    {
        match found {
            Some(style) => ColoredString { style, text: input },
            None => self.colorize(input, elem),
        }
    }

    /// The style the override source registers for `path`, if any; `None`
    /// whenever no override source is active.
    fn style_from_path(&self, path: &str) -> (r: Option<TextStyle>)
        ensures
            !self.has_overrides() ==> r is None,
    {
        match &self.lscolors {
            Some(lscolors) => style_for_path_str(lscolors, path),
            None => None,
        }
    }

    /// Resolves the style for `elem`: indicator-based override first, then
    /// the built-in table.
    fn style(&self, elem: &Elem) -> (s: TextStyle)
        ensures
            s == self.spec_style(*elem),
    {
        match &self.lscolors {
            Some(lscolors) => match Self::get_indicator_from_elem(elem) {
                Some(code) => match style_for_indicator_code(lscolors, code) {
                    Some(style) => style,
                    None => self.style_default(elem),
                },
                None => self.style_default(elem),
            },
            None => self.style_default(elem),
        }
    }

    /// The built-in table's style for `elem`, with the warning background
    /// added on setuid/setgid classifications.
    fn style_default(&self, elem: &Elem) -> (s: TextStyle)
        ensures
            s == self.spec_style_default(*elem),
    {
        match &self.colors {
            Some(colors) => {
                let fg = colors.color_for(elem);
                if elem.has_suid() {
                    TextStyle::with_fg_bg(fg, Colour::Fixed(SUID_BACKGROUND))
                } else {
                    TextStyle::with_fg(fg)
                }
            },
            None => TextStyle::plain(),
        }
    }

    /// The indicator code under which an override may be registered for
    /// `elem`, if the classification takes part in indicator resolution.
    fn get_indicator_from_elem(elem: &Elem) -> (r: Option<&'static str>)
        ensures
            r is Some <==> spec_indicator_code(*elem) is Some,
            r matches Some(code) ==> spec_indicator_code(*elem) == Some(code@),
    {
        match elem {
            Elem::File { executable, uid } => match (executable, uid) {
                (_, true) => None,
                (true, false) => Some("ex"),
                (false, false) => Some("fi"),
            },
            Elem::Dir { uid } => if *uid { None } else { Some("di") },
            Elem::SymLink => Some("ln"),
            Elem::Pipe => Some("pi"),
            Elem::Socket => Some("so"),
            Elem::BlockDevice => Some("bd"),
            Elem::CharDevice => Some("cd"),
            Elem::BrokenSymLink => Some("or"),
            Elem::INode { valid } => if *valid { Some("so") } else { Some("no") },
            _ => None,
        }
    }
}

/// In table-only resolution (table active, no override source), the resolved
/// style's foreground is the built-in table's entry, for every
/// classification.
pub proof fn lemma_table_only_foreground(c: Colors, e: Elem)
    requires
        c.has_table(),
        !c.has_overrides(),
    ensures
        c.spec_style(e).foreground == Some(light_theme_color(e)),
{
}

/// A resolution that does not hit an indicator override (no source active,
/// no indicator code, or a code the source does not register) carries the
/// warning background exactly on the setuid/setgid classifications.
pub proof fn lemma_suid_highlight(c: Colors, e: Elem)
    requires
        c.has_table(),
        c.has_overrides() ==> (spec_indicator_code(e) matches Some(code)
            ==> !c.indicator_overrides().dom().contains(code)),
    ensures
        c.spec_style(e).background == if e.spec_has_suid() {
            Some(Colour::Fixed(SUID_BACKGROUND))
        } else {
            Option::<Colour>::None
        },
{
}

/// An override the source registers under "di" decides `Dir { uid: false }`
/// exactly: the resolved style is the registered one, with no highlight or
/// other change.
pub proof fn lemma_dir_override_wins(c: Colors, s: TextStyle)
    requires
        c.has_overrides(),
        c.indicator_overrides().dom().contains("di"@),
        c.indicator_overrides()["di"@] == s,
    ensures
        c.spec_style(Elem::Dir { uid: false }) == s,
{
}

/// `Dir { uid: true }` has no indicator code, so it never consults the
/// override source: whatever the source registers, the style is the table's
/// entry with the warning background.
pub proof fn lemma_suid_dir_ignores_override(c: Colors)
    requires
        c.has_table(),
    ensures
        c.spec_style(Elem::Dir { uid: true }) == TextStyle::spec_with_fg_bg(
            light_theme_color(Elem::Dir { uid: true }),
            Colour::Fixed(SUID_BACKGROUND),
        ),
{
}

/// In no-color mode (no table, no override source) every classification
/// resolves to the plain, unstyled style.
pub proof fn lemma_no_color_plain(c: Colors, e: Elem)
    requires
        !c.has_table(),
        !c.has_overrides(),
    ensures
        c.spec_style(e) == TextStyle::spec_plain(),
{
}

/// Resolution is a function of the resolver and its inputs alone: any two
/// results that meet `colorize`'s contract for the same resolver, text and
/// classification agree in style and text, so repeating a call changes
/// nothing.
pub proof fn lemma_resolution_idempotent(c: Colors, e: Elem, t: Seq<char>, r1: ColoredString, r2: ColoredString)
    requires
        r1.style == c.spec_style(e),
        r1.text@ == t,
        r2.style == c.spec_style(e),
        r2.text@ == t,
    ensures
        r1.style == r2.style,
        r1.text@ == r2.text@,
{
}

} // verus!
