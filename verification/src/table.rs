use vstd::prelude::*;

use crate::elem::Elem;
use crate::style::Colour;

verus! {

/// The built-in light theme: the default color of every classification. The
/// mapping is total over the closed variant set, so a table lookup can never
/// miss. The palette indices are 256-color codes.
pub open spec fn light_theme_color(e: Elem) -> Colour {
    match e {
        // User / group
        Elem::User => Colour::Fixed(6),
        Elem::Group => Colour::Fixed(7),
        // Permissions
        Elem::Read => Colour::Fixed(2),
        Elem::Write => Colour::Fixed(11),
        Elem::Exec => Colour::Fixed(9),
        Elem::ExecSticky => Colour::Fixed(13),
        Elem::NoAccess => Colour::Fixed(7),
        // File types
        Elem::File { executable, uid } => if executable {
            Colour::Fixed(2)
        } else {
            Colour::Fixed(11)
        },
        Elem::Dir { uid } => Colour::Fixed(4),
        Elem::Pipe => Colour::Fixed(6),
        Elem::SymLink => Colour::Fixed(6),
        Elem::BrokenSymLink => Colour::Fixed(9),
        Elem::BlockDevice => Colour::Fixed(6),
        Elem::CharDevice => Colour::Fixed(3),
        Elem::Socket => Colour::Fixed(6),
        Elem::Special => Colour::Fixed(6),
        // Last time modified
        Elem::HourOld => Colour::Fixed(7),
        Elem::DayOld => Colour::Fixed(7),
        Elem::Older => Colour::Fixed(7),
        // File size
        Elem::NonFile => Colour::Fixed(7),
        Elem::FileSmall => Colour::Fixed(3),
        Elem::FileMedium => Colour::Fixed(5),
        Elem::FileLarge => Colour::Fixed(9),
        // INode
        Elem::INode { valid } => if valid { Colour::Fixed(13) } else { Colour::Fixed(7) },
    }
}

/// The built-in color table. The mapping itself is fixed, so the table
/// carries no state: a value of this type witnesses that table-based
/// resolution is active.
#[derive(Debug, Clone, Copy, PartialEq, Eq)]
pub struct ColorTable;

impl ColorTable {
    pub fn light_theme() -> ColorTable {
        ColorTable
    }

    /// Total lookup: the built-in color for `elem`.
    pub fn color_for(&self, elem: &Elem) -> (c: Colour)
        ensures
            c == light_theme_color(*elem),
    {
        match elem {
            Elem::User => Colour::Fixed(6),
            Elem::Group => Colour::Fixed(7),
            Elem::Read => Colour::Fixed(2),
            Elem::Write => Colour::Fixed(11),
            Elem::Exec => Colour::Fixed(9),
            Elem::ExecSticky => Colour::Fixed(13),
            Elem::NoAccess => Colour::Fixed(7),
            Elem::File { executable: true, .. } => Colour::Fixed(2),
            Elem::File { executable: false, .. } => Colour::Fixed(11),
            Elem::Dir { .. } => Colour::Fixed(4),
            Elem::Pipe => Colour::Fixed(6),
            Elem::SymLink => Colour::Fixed(6),
            Elem::BrokenSymLink => Colour::Fixed(9),
            Elem::BlockDevice => Colour::Fixed(6),
            Elem::CharDevice => Colour::Fixed(3),
            Elem::Socket => Colour::Fixed(6),
            Elem::Special => Colour::Fixed(6),
            Elem::HourOld => Colour::Fixed(7),
            Elem::DayOld => Colour::Fixed(7),
            Elem::Older => Colour::Fixed(7),
            Elem::NonFile => Colour::Fixed(7),
            Elem::FileSmall => Colour::Fixed(3),
            Elem::FileMedium => Colour::Fixed(5),
            Elem::FileLarge => Colour::Fixed(9),
            Elem::INode { valid: true } => Colour::Fixed(13),
            Elem::INode { valid: false } => Colour::Fixed(7),
        }
    }
}

} // verus!
