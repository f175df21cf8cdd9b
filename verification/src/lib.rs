//! Resolves a display style for a filesystem entry in a directory listing.
//!
//! A caller classifies an entry (file, directory, permission bit, age bucket,
//! ...) and asks the resolver for the style to paint it with. Three sources of
//! color are combined with a fixed precedence: a per-path override, an
//! override keyed by a two-letter indicator code, and a built-in table; the
//! setuid/setgid classifications additionally receive a warning background on
//! top of any table-resolved foreground.

pub mod colors;
pub mod elem;
pub mod source;
pub mod style;
pub mod table;

pub use colors::Colors;
pub use colors::Theme;
pub use elem::Elem;
pub use style::Colour;
pub use style::ColoredString;
pub use style::TextStyle;
pub use table::ColorTable;
